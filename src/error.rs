use vstd::prelude::*;

verus! {

/// `serde_json::Error`, the failure of the JSON encoder that the structured
/// output strategy uses. Only carried through: nothing is assumed of it.
#[verifier::external_type_specification]
#[verifier::external_body]
pub struct ExJsonError(serde_json::Error);

/// `std::io::Error`, a read or write failure. Only carried through: nothing
/// is assumed of it.
#[verifier::external_type_specification]
#[verifier::external_body]
pub struct ExIoError(std::io::Error);

/// Why an emission run failed. Every one of them ends the run at once.
#[derive(Debug)]
pub enum EmitterError {
    /// Reading or writing a file or stream failed.
    IoError(std::io::Error),
    /// Building the structured (JSON) representation failed.
    JsonError(serde_json::Error),
    /// Output for an input that has no path on disk (standard input) was to
    /// be read from, or persisted to, the file system.
    InvalidInputForFiles,
    /// An `--emit` token that names no selectable mode.
    UnknownMode(String),
}

} // verus!
