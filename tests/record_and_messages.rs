use clipd::error::{sensible_error_message, ClipError, TransferFailure};
use clipd::progress::progress_percent;
use clipd::record::{encode_record, mode_name, parse_mode, parse_record, Mode, RecordError};

#[test]
fn encode_writes_two_lines() {
    assert_eq!(encode_record(Mode::Copy, "/home/u/a.txt"), "copy\n/home/u/a.txt");
    assert_eq!(encode_record(Mode::Cut, "/d"), "cut\n/d");
    assert_eq!(mode_name(Mode::Cut), "cut");
}

#[test]
fn parse_reads_back_what_was_encoded() {
    for (mode, src) in [(Mode::Copy, "/a/b"), (Mode::Cut, "/x y/z"), (Mode::Copy, "/ü/ö")] {
        let op = parse_record(&encode_record(mode, src)).unwrap();
        assert_eq!(op.mode, mode);
        assert_eq!(op.source, src);
    }
}

#[test]
fn parse_errors() {
    assert_eq!(parse_record("").unwrap_err(), RecordError::Empty);
    assert_eq!(parse_record("move\n/a").unwrap_err(), RecordError::InvalidMode);
    assert_eq!(parse_record("\n/a").unwrap_err(), RecordError::InvalidMode);
    assert_eq!(parse_record("copy").unwrap_err(), RecordError::MissingSource);
    assert_eq!(parse_record("cut\n").unwrap_err(), RecordError::MissingSource);
}

#[test]
fn parse_line_endings() {
    let op = parse_record("cut\r\n/x\r\n").unwrap();
    assert_eq!(op.mode, Mode::Cut);
    assert_eq!(op.source, "/x");
    let op = parse_record("copy\n/a\n/b").unwrap();
    assert_eq!(op.source, "/a");
    let op = parse_record("copy\n\n").unwrap();
    assert_eq!(op.source, "");
}

#[test]
fn parse_mode_tokens() {
    assert_eq!(parse_mode("copy"), Some(Mode::Copy));
    assert_eq!(parse_mode("cut"), Some(Mode::Cut));
    assert_eq!(parse_mode("paste"), None);
}

#[test]
fn transfer_messages() {
    assert_eq!(
        sensible_error_message(TransferFailure::AlreadyExists),
        "The target directory already contains an element of such name."
    );
    assert_eq!(
        sensible_error_message(TransferFailure::SourceMissing),
        "Make sure the source has not been moved nor deleted."
    );
    assert_eq!(
        sensible_error_message(TransferFailure::PermissionDenied),
        "Clipd doesn't have permissions necessary to perform this operation."
    );
    assert_eq!(
        sensible_error_message(TransferFailure::Interrupted),
        "The operation has been interrupted. Try performing it again."
    );
    assert_eq!(
        sensible_error_message(TransferFailure::InvalidFolder),
        "The source contains a folder with an invalid name"
    );
    assert_eq!(
        sensible_error_message(TransferFailure::InvalidFileName),
        "The source contains a file with an invalid name"
    );
    assert_eq!(sensible_error_message(TransferFailure::Unclassified), "An unknown error occured.");
}

#[test]
fn error_messages() {
    assert_eq!(ClipError::SourceNotFound.message(), "The given file does not exist!");
    assert_eq!(ClipError::NothingToPaste.message(), "Clipboard is empty!");
    assert_eq!(ClipError::InvalidClipboardData.message(), "Invalid data stored in clipboard!");
    assert_eq!(ClipError::IncompleteClipboardData.message(), "Incomplete data stored in clipboard!");
    assert_eq!(ClipError::ClearFailed.message(), "The clipboard could not be cleared.");
    assert_eq!(ClipError::DestinationCreateFailed.message(), "Couldn't create the target directory.");
    assert_eq!(
        ClipError::Transfer(TransferFailure::AlreadyExists).message(),
        "The target directory already contains an element of such name."
    );
}

#[test]
fn progress_in_percent() {
    assert_eq!(progress_percent(50, 200), 25);
    assert_eq!(progress_percent(3, 7), 42);
    assert_eq!(progress_percent(0, 10), 0);
    assert_eq!(progress_percent(10, 10), 100);
    assert_eq!(progress_percent(0, 0), 100);
    assert_eq!(progress_percent(u64::MAX - 1, u64::MAX), 99);
}
