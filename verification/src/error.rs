use vstd::prelude::*;

verus! {

/// The failures the tool can report.
///
/// `EmptyCommand` and `CommandFailed` come from running an external
/// command; `NotFound` from the remote lookup; `StageTransferFailed`
/// from the staging step of a transfer; `LibraryNotFoundInArchive` and
/// `ArchiveError` from archive extraction; `ConfigurationError` from
/// start-up validation.
#[derive(Debug, PartialEq, Eq)]
pub enum Error {
    EmptyCommand,
    CommandFailed { exit_code: Option<i32>, output: Vec<u8> },
    NotFound,
    StageTransferFailed,
    LibraryNotFoundInArchive { arch: Vec<u8>, archive_path: Vec<u8> },
    ConfigurationError,
    ArchiveError,
}

} // verus!
