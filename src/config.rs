use vstd::prelude::*;
use crate::strmap::StrMap;

verus! {

/// A port entry: the port the artifact exposes, and the port an operator is
/// to map at run time.
pub struct PortEntry {
    pub internal: Option<u16>,
    pub external: Option<u16>,
}

/// A dataset or file entry: where to fetch from and where to put it.
pub struct Transfer {
    pub from_source: Option<String>,
    pub to_destination: Option<String>,
}

/// A git repository entry.
pub struct GitEntry {
    pub from_source: Option<String>,
    pub to_destination: Option<String>,
    pub branch: Option<String>,
}

/// A command entry of the `run` or `cmd` section.
pub struct CommandEntry {
    pub command: Option<String>,
    pub args: Option<String>,
}

/// A script entry of the provisioning script: a command run against a file.
pub struct ScriptEntry {
    pub command: Option<String>,
    pub file: Option<String>,
}

/// The recognized package ecosystems: package name to version constraint.
pub struct Packages {
    pub unix: Option<StrMap>,
    pub python: Option<StrMap>,
}

/// A build configuration.
pub struct Config {
    pub base_image: String,
    pub environment: StrMap,
    pub directories: Option<StrMap>,
    pub packages: Option<Packages>,
    pub ports: Vec<PortEntry>,
    pub dataset: Option<Vec<Transfer>>,
    pub file: Option<Vec<Transfer>>,
    pub git: Vec<GitEntry>,
    pub run: Option<Vec<CommandEntry>>,
    pub script: Option<Vec<ScriptEntry>>,
    pub cmd: Vec<CommandEntry>,
    pub version: String,
}

/// The artifact to generate.
#[derive(Clone, Copy, Debug, PartialEq, Eq, Structural)]
pub enum ArtifactKind {
    /// A container build file with one directive per section and no entry point.
    ContainerMinimal,
    /// A container build file with commented sections and an entry point.
    ContainerFull,
    /// A shell script that provisions a machine.
    ProvisioningScript,
}

/// A section whose malformed entries are skipped.
#[derive(Clone, Copy, Debug, PartialEq, Eq, Structural)]
pub enum Section {
    Git,
    Dataset,
    File,
    Run,
    Script,
}

/// A note on the configuration that does not stop generation.
#[derive(Clone, Copy, Debug, PartialEq, Eq, Structural)]
pub enum Diagnostic {
    /// An external port, which the artifact cannot express: it is to be mapped at run time.
    ExternalPort(u16),
    /// An entry of the section lacked a required key and was skipped.
    MalformedEntry(Section),
}

/// Why no artifact was produced.
#[derive(Clone, Debug, PartialEq, Eq)]
pub enum GenerationError {
    /// The configuration source answered with this non-success status.
    Fetch(u16),
    /// The document did not parse into a configuration.
    Schema(String),
    /// The environment has no `model_name`, which the script needs.
    MissingModelName,
    /// The entry-point section does not hold exactly one entry.
    Cardinality,
    /// The entry-point entry lacks `command` or `args`.
    MalformedEntryPoint,
    /// The system clock could not be read as a UTC time.
    Clock,
    /// The generated build file was rejected by the syntax check.
    Validation(String),
}

/// A generated artifact and the notes gathered while generating it.
pub struct Artifact {
    pub text: String,
    pub diagnostics: Vec<Diagnostic>,
}

} // verus!
