//! Failure taxonomy of the cache.

use vstd::prelude::*;

verus! {

/// A step of file handling that can fail with an I/O error.
#[derive(Clone, Copy, Debug, PartialEq, Eq, Structural)]
pub enum Stage {
    /// Opening the backing file for reading.
    Open,
    /// Creating the temporary sibling file.
    CreateTemp,
    /// Encoding the value into the temporary file.
    Encode,
    /// Flushing the temporary file.
    Flush,
    /// Replacing the backing file with the temporary file.
    Replace,
}

/// Why an operation of the cache failed.
#[derive(Clone, Copy, Debug, PartialEq, Eq, Structural)]
pub enum Error {
    /// A file operation failed at the given stage.
    Io(Stage),
    /// The backing file exists but its content does not decode.
    Decode,
    /// The lock collaborator could not acquire or query the lock.
    Lock,
    /// The in-process guard of the cached copy was left inconsistent.
    Poisoned,
}

/// The text that names a failure.
pub open spec fn message_spec(error: Error) -> Seq<char> {
    match error {
        Error::Io(Stage::Open) => "opening blobject"@,
        Error::Io(Stage::CreateTemp) => "creating tmp file for blobject"@,
        Error::Io(Stage::Encode) => "serializing blobject to file"@,
        Error::Io(Stage::Flush) => "flushing blobject file"@,
        Error::Io(Stage::Replace) => "replacing blobject file"@,
        Error::Decode => "loading blobject"@,
        Error::Lock => "locking blobject"@,
        Error::Poisoned => "poisoned blobject"@,
    }
}

impl Error {
    /// The text that names this failure, for the caller to show.
    pub fn message(&self) -> (text: &'static str)
        ensures
            text@ == message_spec(*self),
    {
        match self {
            Error::Io(Stage::Open) => "opening blobject",
            Error::Io(Stage::CreateTemp) => "creating tmp file for blobject",
            Error::Io(Stage::Encode) => "serializing blobject to file",
            Error::Io(Stage::Flush) => "flushing blobject file",
            Error::Io(Stage::Replace) => "replacing blobject file",
            Error::Decode => "loading blobject",
            Error::Lock => "locking blobject",
            Error::Poisoned => "poisoned blobject",
        }
    }
}

} // verus!
