//! What can go wrong, and how failures that the system reports are told apart.

use vstd::prelude::*;

verus! {

/// Errors of a file.
#[derive(Clone, Copy, Debug, PartialEq, Eq, Structural)]
pub enum StorageError {
    /// A file is to be opened, but its name is missing.
    FilenameRequired,
    /// A relative path is to be resolved against a file without a name.
    NoBaseFilename,
    /// A relative path is to be resolved against a file whose name has no parent.
    InvalidBaseFilename,
    /// A read would reach an offset that cannot be represented.
    ReadOffsetOverflow,
    /// A write would reach an offset that cannot be represented.
    WriteOffsetOverflow,
    /// A write made no progress.
    WriteZero,
    /// The system reported the error of this number.
    Os(i32),
}

impl StorageError {
    /// The text that describes the error, where it is this crate that words it.
    pub open spec fn message_text(self) -> Option<Seq<char>> {
        match self {
            StorageError::FilenameRequired => Some("Filename required"@),
            StorageError::NoBaseFilename => Some("No filename set for base image"@),
            StorageError::InvalidBaseFilename => Some("Invalid base image filename set"@),
            StorageError::ReadOffsetOverflow => Some("Read offset overflow"@),
            StorageError::WriteOffsetOverflow => Some("Write offset overflow"@),
            StorageError::WriteZero => None,
            StorageError::Os(_) => None,
        }
    }

    /// The text that describes the error, or `None` where the standard library words it (a write
    /// without progress, and what the system reported).
    pub fn message(&self) -> (r: Option<&'static str>)
        ensures
            match r {
                Some(text) => self.message_text() == Some(text@),
                None => self.message_text() is None,
            },
    {
        match self {
            StorageError::FilenameRequired => Some("Filename required"),
            StorageError::NoBaseFilename => Some("No filename set for base image"),
            StorageError::InvalidBaseFilename => Some("Invalid base image filename set"),
            StorageError::ReadOffsetOverflow => Some("Read offset overflow"),
            StorageError::WriteOffsetOverflow => Some("Write offset overflow"),
            StorageError::WriteZero => None,
            StorageError::Os(_) => None,
        }
    }
}

/// The kinds of failures that are treated differently from the rest.
#[derive(Clone, Copy, Debug, PartialEq, Eq, Structural)]
pub enum FailureKind {
    /// The call was interrupted before it did anything.
    Interrupted,
    /// The request was not acceptable, which is how misaligned requests are reported.
    InvalidArgument,
    /// The file is not open for this kind of access.
    BadDescriptor,
    /// Anything else.
    Other,
}

/// A failure that the system reported.
#[derive(Clone, Copy, Debug, PartialEq, Eq, Structural)]
pub struct IoFailure {
    /// What kind of failure it is.
    pub kind: FailureKind,
    /// The number by which the system reported it.
    pub code: i32,
}

/// The error numbers by which a system reports the failures that matter here.
#[derive(Clone, Copy, Debug, PartialEq, Eq, Structural)]
pub struct ErrorCodes {
    /// `EINTR`.
    pub interrupted: i32,
    /// `EINVAL`.
    pub invalid_argument: i32,
    /// `EBADF`.
    pub bad_descriptor: i32,
}

impl ErrorCodes {
    /// No number stands for two kinds of failures.
    pub open spec fn distinct(self) -> bool {
        &&& self.interrupted != self.invalid_argument
        &&& self.interrupted != self.bad_descriptor
        &&& self.invalid_argument != self.bad_descriptor
    }

    /// The kind of failure that the error number `code` reports.
    pub open spec fn kind_of(self, code: i32) -> FailureKind {
        if code == self.interrupted {
            FailureKind::Interrupted
        } else if code == self.invalid_argument {
            FailureKind::InvalidArgument
        } else if code == self.bad_descriptor {
            FailureKind::BadDescriptor
        } else {
            FailureKind::Other
        }
    }

    /// The error numbers of this system.
    pub fn of_system() -> (r: Self)
        ensures
            r.distinct(),
    {
        system_error_codes()
    }

    /// Tells what kind of failure the error number `code` reports.
    pub fn classify(&self, code: i32) -> (r: IoFailure)
        ensures
            r == (IoFailure { kind: self.kind_of(code), code }),
            r.code == code,
    {
        let kind = if code == self.interrupted {
            FailureKind::Interrupted
        } else if code == self.invalid_argument {
            FailureKind::InvalidArgument
        } else if code == self.bad_descriptor {
            FailureKind::BadDescriptor
        } else {
            FailureKind::Other
        };
        IoFailure { kind, code }
    }
}

/// Each of the numbers stands for its kind of failure and for no other, and whatever is none of them
/// for anything else.
pub proof fn law_number_tells_kind(codes: ErrorCodes, code: i32)
    requires
        codes.interrupted != codes.invalid_argument,
        codes.interrupted != codes.bad_descriptor,
        codes.invalid_argument != codes.bad_descriptor,
    ensures
        codes.distinct(),
        codes.kind_of(code) is Interrupted <==> code == codes.interrupted,
        codes.kind_of(code) is InvalidArgument <==> code == codes.invalid_argument,
        codes.kind_of(code) is BadDescriptor <==> code == codes.bad_descriptor,
        codes.kind_of(code) is Other <==> code != codes.interrupted && code
            != codes.invalid_argument && code != codes.bad_descriptor,
{
}

/// This crate words every error but those of the standard library and the system, and no two
/// errors in the same way.
pub proof fn law_message_tells_error(a: StorageError, b: StorageError)
    ensures
        a.message_text() is None <==> a is WriteZero || a is Os,
        a.message_text() is Some && a.message_text() == b.message_text() ==> a == b,
{
    reveal_strlit("Filename required");
    reveal_strlit("No filename set for base image");
    reveal_strlit("Invalid base image filename set");
    reveal_strlit("Read offset overflow");
    reveal_strlit("Write offset overflow");
    let x = a.message_text();
    let y = b.message_text();
    if x is Some && x == y {
        assert(x->0.len() == y->0.len());
    }
}

/// Takes the constants `libc::EINTR`, `libc::EINVAL` and `libc::EBADF`.  Their numbers differ
/// between systems; what holds on each of them is that the three are different numbers.
#[verifier::external_body]
fn system_error_codes() -> (r: ErrorCodes)
    ensures
        r.distinct(),
{
    ErrorCodes {
        interrupted: libc::EINTR,
        invalid_argument: libc::EINVAL,
        bad_descriptor: libc::EBADF,
    }
}

} // verus!
