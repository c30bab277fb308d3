//! The failures of an invocation, and the message that reports each.
use vstd::prelude::*;

verus! {

/// How a transfer of data failed.
#[derive(Clone, Copy, Debug, PartialEq, Eq, Structural)]
pub enum TransferFailure {
    /// The destination already holds an entry of the source's name.
    AlreadyExists,
    /// The source is gone.
    SourceMissing,
    PermissionDenied,
    Interrupted,
    /// The source holds a directory with a name that cannot be used.
    InvalidFolder,
    /// The source holds a file with a name that cannot be used.
    InvalidFileName,
    Unclassified,
}

/// Why an invocation failed.
#[derive(Clone, Copy, Debug, PartialEq, Eq, Structural)]
pub enum ClipError {
    /// The path marked for copy or cut does not exist.
    SourceNotFound,
    /// The executable's own location, beside which the record lives, is unknown.
    LocateFailed,
    /// The record could not be written.
    WriteFailed,
    /// The destination directory could not be created.
    DestinationCreateFailed,
    /// The record could not be read.
    ReadFailed,
    /// The record is empty: nothing is pending.
    NothingToPaste,
    /// The record's first line is not a mode.
    InvalidClipboardData,
    /// The record has no line for the source.
    IncompleteClipboardData,
    /// The transfer itself failed.
    Transfer(TransferFailure),
    /// After a move, the source could not be removed.
    SourceCleanupFailed,
    /// After a move, the record could not be cleared.
    ClearFailed,
}

pub open spec fn failure_message(k: TransferFailure) -> Seq<char> {
    match k {
        TransferFailure::AlreadyExists => "The target directory already contains an element of such name."@,
        TransferFailure::SourceMissing => "Make sure the source has not been moved nor deleted."@,
        TransferFailure::PermissionDenied => "Clipd doesn't have permissions necessary to perform this operation."@,
        TransferFailure::Interrupted => "The operation has been interrupted. Try performing it again."@,
        TransferFailure::InvalidFolder => "The source contains a folder with an invalid name"@,
        TransferFailure::InvalidFileName => "The source contains a file with an invalid name"@,
        TransferFailure::Unclassified => "An unknown error occured."@,
    }
}

pub open spec fn error_message(e: ClipError) -> Seq<char> {
    match e {
        ClipError::SourceNotFound => "The given file does not exist!"@,
        ClipError::LocateFailed => "Couldn't find the clipd executable!"@,
        ClipError::WriteFailed => "Couldn't write to the clipboard!"@,
        ClipError::DestinationCreateFailed => "Couldn't create the target directory."@,
        ClipError::ReadFailed => "Couldn't read from clipboard!"@,
        ClipError::NothingToPaste => "Clipboard is empty!"@,
        ClipError::InvalidClipboardData => "Invalid data stored in clipboard!"@,
        ClipError::IncompleteClipboardData => "Incomplete data stored in clipboard!"@,
        ClipError::Transfer(k) => failure_message(k),
        ClipError::SourceCleanupFailed => "The source could not be removed."@,
        ClipError::ClearFailed => "The clipboard could not be cleared."@,
    }
}

/// The message that explains a failed transfer to the user.
pub fn sensible_error_message(kind: TransferFailure) -> (r: &'static str)
    ensures
        r@ == failure_message(kind),
{
    match kind {
        TransferFailure::AlreadyExists => "The target directory already contains an element of such name.",
        TransferFailure::SourceMissing => "Make sure the source has not been moved nor deleted.",
        TransferFailure::PermissionDenied => "Clipd doesn't have permissions necessary to perform this operation.",
        TransferFailure::Interrupted => "The operation has been interrupted. Try performing it again.",
        TransferFailure::InvalidFolder => "The source contains a folder with an invalid name",
        TransferFailure::InvalidFileName => "The source contains a file with an invalid name",
        TransferFailure::Unclassified => "An unknown error occured.",
    }
}

impl ClipError {
    /// The message that reports this failure.
    pub fn message(&self) -> (r: &'static str)
        ensures
            r@ == error_message(*self),
    {
        match self {
            ClipError::SourceNotFound => "The given file does not exist!",
            ClipError::LocateFailed => "Couldn't find the clipd executable!",
            ClipError::WriteFailed => "Couldn't write to the clipboard!",
            ClipError::DestinationCreateFailed => "Couldn't create the target directory.",
            ClipError::ReadFailed => "Couldn't read from clipboard!",
            ClipError::NothingToPaste => "Clipboard is empty!",
            ClipError::InvalidClipboardData => "Invalid data stored in clipboard!",
            ClipError::IncompleteClipboardData => "Incomplete data stored in clipboard!",
            ClipError::Transfer(k) => sensible_error_message(*k),
            ClipError::SourceCleanupFailed => "The source could not be removed.",
            ClipError::ClearFailed => "The clipboard could not be cleared.",
        }
    }
}

} // verus!
