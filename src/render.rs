use vstd::prelude::*;
use crate::config::{Artifact, ArtifactKind, Config, GenerationError};
use crate::container::{full_outcome, minimal_outcome, render_full, render_minimal};
use crate::script::{render_script, script_outcome};

verus! {

/// What rendering `c` as `kind` at timestamp `ts` gives.
pub open spec fn render_outcome(c: Config, kind: ArtifactKind, ts: Seq<char>, r: Result<Artifact, GenerationError>) -> bool {
    match kind {
        ArtifactKind::ContainerMinimal => minimal_outcome(c, ts, r),
        ArtifactKind::ContainerFull => full_outcome(c, ts, r),
        ArtifactKind::ProvisioningScript => script_outcome(c, r),
    }
}

/// Renders `c` as `target`, stamping build files with `timestamp`.
pub fn render(c: &Config, target: ArtifactKind, timestamp: &str) -> (r: Result<Artifact, GenerationError>)
    ensures
        render_outcome(*c, target, timestamp@, r),
{
    match target {
        ArtifactKind::ContainerMinimal => render_minimal(c, timestamp),
        ArtifactKind::ContainerFull => render_full(c, timestamp),
        ArtifactKind::ProvisioningScript => render_script(c),
    }
}

/// A decimal digit.
pub open spec fn is_digit(ch: char) -> bool {
    '0' <= ch && ch <= '9'
}

/// Only decimal digits.
pub open spec fn all_digits(s: Seq<char>) -> bool {
    forall|i: int| 0 <= i < s.len() ==> is_digit(#[trigger] s[i])
}

/// A year as `%Y` writes it: four digits for years 0 to 9999, a sign and at
/// least four digits otherwise.
pub open spec fn year_field(y: Seq<char>) -> bool {
    (y.len() == 4 && all_digits(y)) || (y.len() >= 5 && (y[0] == '+' || y[0] == '-') && all_digits(y.drop_first()))
}

/// A timestamp laid out as `YYYY-MM-DD HH:MM:SS`, each field but the year two
/// digits wide.
pub open spec fn stamp_shaped(ts: Seq<char>) -> bool {
    &&& ts.len() >= 19
    &&& year_field(ts.take(ts.len() - 15))
    &&& {
        let t = ts.skip(ts.len() - 15);
        &&& t[0] == '-' && all_digits(t.subrange(1, 3))
        &&& t[3] == '-' && all_digits(t.subrange(4, 6))
        &&& t[6] == ' ' && all_digits(t.subrange(7, 9))
        &&& t[9] == ':' && all_digits(t.subrange(10, 12))
        &&& t[12] == ':' && all_digits(t.subrange(13, 15))
    }
}

/// Relies on std::time::SystemTime::now for the clock, on
/// chrono::DateTime::from_timestamp, which gives `None` for times it cannot
/// represent, and on chrono's `%Y-%m-%d %H:%M:%S` formatting, which writes
/// each field zero-padded to two digits and the year as `year_field` says.
/// A clock before 1970 also gives `None`. Which time it is, is not promised.
#[verifier::external_body]
fn utc_timestamp() -> (r: Option<String>)
    ensures
        r matches Some(s) ==> stamp_shaped(s@),
{
    let since = std::time::SystemTime::now().duration_since(std::time::UNIX_EPOCH).ok()?;
    let secs = i64::try_from(since.as_secs()).ok()?;
    let t = chrono::DateTime::<chrono::Utc>::from_timestamp(secs, since.subsec_nanos())?;
    Some(t.format("%Y-%m-%d %H:%M:%S").to_string())
}

/// Renders `c` as `target`, stamped with the current UTC time: the outcome of
/// `render` at some timestamp of the clock's format, or a clock error when the
/// clock cannot be read as a UTC time.
pub fn render_now(c: &Config, target: ArtifactKind) -> (r: Result<Artifact, GenerationError>)
    ensures
        r == Err::<Artifact, GenerationError>(GenerationError::Clock)
            || exists|ts: Seq<char>| stamp_shaped(ts) && render_outcome(*c, target, ts, r),
{
    match utc_timestamp() {
        Some(ts) => render(c, target, ts.as_str()),
        None => Err(GenerationError::Clock),
    }
}

} // verus!
