//! Generation of container build files and shell provisioning scripts from a
//! declarative build configuration.
pub mod strmap;
pub mod text;
pub mod config;
pub mod emit;
pub mod container;
pub mod script;
pub mod render;
pub mod laws;

pub use config::Config;
