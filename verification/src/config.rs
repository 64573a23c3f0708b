//! Logging configuration for a host application: an enabled flag, a
//! minimum severity, and an output destination, together with a
//! constructor producing the canonical default value.

use vstd::prelude::*;

verus! {

/// Severity of a log message, ordered from least to most important by
/// declaration order: `Debug`, `Info`, `Warn`, `Error`.
pub enum LogLevel {
    Debug,
    Info,
    Warn,
    Error,
}

/// Where log output is written: standard output, standard error, or a
/// named file. The file path is carried verbatim; no validation or
/// normalization is applied to it.
pub enum LogOutput {
    Stdout,
    Stderr,
    File(String),
}

/// Logging configuration: whether logging is active, the minimum
/// severity to emit, and where output goes.
///
/// The three fields vary independently: no invariant couples `enabled`
/// to `level` or `destination`. Callers may build a value either with
/// [`Logging::new`] or directly, supplying all three fields.
pub struct Logging {
    pub enabled: bool,
    pub level: LogLevel,
    pub destination: LogOutput,
}

impl Logging {
    /// The canonical default configuration: logging disabled, minimum
    /// severity `Info`, output to standard output. Deterministic and
    /// total: every invocation returns exactly this value.
    pub fn new() -> (c: Self)
        ensures
            c.enabled == false,
            c.level is Info,
            c.destination is Stdout,
    {
        Self {
            enabled: false,
            level: LogLevel::Info,
            destination: LogOutput::Stdout,
        }
    }
}

/// Independence law: for every flag `b`, severity `s`, and destination
/// `d`, a configuration built directly from them reads each field back
/// exactly as supplied; no cross-field coercion occurs.
pub proof fn lemma_fields_independent(b: bool, s: LogLevel, d: LogOutput)
    ensures
        (Logging { enabled: b, level: s, destination: d }).enabled == b,
        (Logging { enabled: b, level: s, destination: d }).level == s,
        (Logging { enabled: b, level: s, destination: d }).destination == d,
{
}

/// Variant-payload law: for every string `p`, a `File` destination built
/// from `p` carries exactly `p`; reading the payload back yields the
/// string unchanged.
pub proof fn lemma_file_payload_unchanged(p: String)
    ensures
        (LogOutput::File(p)) is File,
        (LogOutput::File(p))->0 == p,
{
}

} // verus!
