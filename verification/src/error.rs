//! What can go wrong when a file is opened or saved.

use vstd::prelude::*;

verus! {

/// The kinds of failure that std reports for an operation on a file. Verus
/// reads the variants of the enum from std; nothing is claimed of them.
#[verifier::external_type_specification]
pub struct ExErrorKind(std::io::ErrorKind);

/// Why the file system refused an operation, as far as the editor tells
/// reasons apart.
#[derive(Clone, Copy, Debug, PartialEq, Eq, Structural)]
pub enum FailureKind {
    /// There is no file at the location.
    NotFound,
    /// The file may not be read or written by this user.
    PermissionDenied,
    /// Any other reason.
    Other,
}

impl FailureKind {
    /// The editor's reason for a failure of std's `kind`.
    pub open spec fn classify(kind: std::io::ErrorKind) -> FailureKind {
        match kind {
            std::io::ErrorKind::NotFound => FailureKind::NotFound,
            std::io::ErrorKind::PermissionDenied => FailureKind::PermissionDenied,
            _ => FailureKind::Other,
        }
    }

    /// The editor's reason for a failure of std's `kind`.
    pub fn of(kind: std::io::ErrorKind) -> (reason: FailureKind)
        ensures
            reason == FailureKind::classify(kind),
    {
        match kind {
            std::io::ErrorKind::NotFound => FailureKind::NotFound,
            std::io::ErrorKind::PermissionDenied => FailureKind::PermissionDenied,
            _ => FailureKind::Other,
        }
    }
}

/// A failure of an open or a save.
#[derive(Clone, Copy, Debug, PartialEq, Eq, Structural)]
pub enum Error {
    /// The user closed the file dialog without choosing a file. Nothing went
    /// wrong in the editor.
    DialogClosed,
    /// The file system refused to read or write the file.
    IOFailed(FailureKind),
}

impl Error {
    /// The words that the status line shows for the error.
    pub open spec fn text(self) -> Seq<char> {
        match self {
            Error::DialogClosed => "dialog closed"@,
            Error::IOFailed(FailureKind::NotFound) => "entity not found"@,
            Error::IOFailed(FailureKind::PermissionDenied) => "permission denied"@,
            Error::IOFailed(FailureKind::Other) => "other error"@,
        }
    }

    /// The words that the status line shows for the error.
    pub fn message(&self) -> (words: &'static str)
        ensures
            words@ == self.text(),
    {
        match self {
            Error::DialogClosed => "dialog closed",
            Error::IOFailed(FailureKind::NotFound) => "entity not found",
            Error::IOFailed(FailureKind::PermissionDenied) => "permission denied",
            Error::IOFailed(FailureKind::Other) => "other error",
        }
    }
}

} // verus!
