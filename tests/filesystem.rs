use std::path::Path;

use clipd::config::{Action, Config};
use clipd::controller::{Controller, Effect, Event};
use clipd::error::{ClipError, TransferFailure};
use clipd::record::Mode;
use fs_extra::dir;
use fs_extra::dir::CopyOptions;
use fs_extra::error::ErrorKind;

/// A scratch area of its own for each test: `<root>/bin/clipd` stands for the
/// executable, so the record is `<root>/bin/clipboard`.
fn scratch(name: &str) -> String {
    let root = format!("/tmp/clipd_tests/{}", name);
    dir::create_all(&root, true).unwrap();
    dir::create_all(format!("{}/bin", root), false).unwrap();
    root
}

fn failure_of(kind: &ErrorKind) -> TransferFailure {
    match kind {
        ErrorKind::AlreadyExists => TransferFailure::AlreadyExists,
        ErrorKind::NotFound => TransferFailure::SourceMissing,
        ErrorKind::PermissionDenied => TransferFailure::PermissionDenied,
        ErrorKind::Interrupted => TransferFailure::Interrupted,
        ErrorKind::InvalidFolder => TransferFailure::InvalidFolder,
        ErrorKind::InvalidFileName => TransferFailure::InvalidFileName,
        _ => TransferFailure::Unclassified,
    }
}

fn perform(effect: Effect<String>) -> Event<String> {
    match effect {
        Effect::CheckExists(p) => Event::Exists(Path::new(&p).exists()),
        Effect::CreateDirectory(p) => Event::Done(dir::create_all(p, false).is_ok()),
        Effect::WriteRecord(store, text) => Event::Done(fs_extra::file::write_all(store, &text).is_ok()),
        Effect::ReadRecord(store) => match fs_extra::file::read_to_string(store) {
            Ok(s) => Event::Contents(Some(s)),
            Err(e) if matches!(e.kind, ErrorKind::NotFound) => Event::Contents(Some(String::new())),
            Err(_) => Event::Contents(None),
        },
        Effect::Transfer { source, destination, mode } => {
            let items = [source];
            let options = CopyOptions::new();
            let result = match mode {
                Mode::Copy => fs_extra::copy_items(&items, destination, &options),
                Mode::Cut => fs_extra::move_items(&items, destination, &options),
            };
            Event::Transferred(result.map(|_| ()).map_err(|e| failure_of(&e.kind)))
        }
        Effect::RemoveSource(p) => {
            let path = Path::new(&p);
            let ok = if path.is_dir() {
                dir::remove(path).is_ok()
            } else if path.exists() {
                fs_extra::file::remove(path).is_ok()
            } else {
                true
            };
            Event::Done(ok)
        }
        Effect::Finish(_) => panic!("nothing to perform"),
    }
}

fn write<P: AsRef<Path>>(path: P, text: &str) -> Result<(), fs_extra::error::Error> {
    fs_extra::file::write_all(path, text)
}

fn read<P: AsRef<Path>>(path: P) -> Result<String, fs_extra::error::Error> {
    fs_extra::file::read_to_string(path)
}

fn mkdir<P: AsRef<Path>>(path: P) -> Result<(), fs_extra::error::Error> {
    dir::create_all(path, false)
}

fn invoke(root: &str, action: Action, path: &str) -> Result<(), ClipError> {
    let config = Config { action, filename: path.to_string() };
    let mut c = Controller::new(config, Some(format!("{}/bin/clipd", root)));
    loop {
        match c.effect() {
            Effect::Finish(r) => return r,
            effect => {
                let event = perform(effect);
                c.advance(event);
            }
        }
    }
}

fn record(root: &str) -> String {
    fs_extra::file::read_to_string(format!("{}/bin/clipboard", root)).unwrap_or_default()
}

#[test]
fn copy_paste_repeats_into_each_destination() {
    let root = scratch("copy_repeat");
    let src = format!("{}/a.txt", root);
    write(&src, "hello").unwrap();
    assert_eq!(invoke(&root, Action::Copy, &src), Ok(()));
    let before = record(&root);
    assert_eq!(before, format!("copy\n{}", src));
    for d in ["d1", "d2", "d3"] {
        let dest = format!("{}/{}", root, d);
        assert_eq!(invoke(&root, Action::Paste, &dest), Ok(()));
        assert_eq!(read(format!("{}/a.txt", dest)).unwrap(), "hello");
        assert_eq!(read(&src).unwrap(), "hello");
        assert_eq!(record(&root), before);
    }
}

#[test]
fn cut_paste_moves_and_clears() {
    let root = scratch("cut_clears");
    let src = format!("{}/b.txt", root);
    write(&src, "data").unwrap();
    assert_eq!(invoke(&root, Action::Cut, &src), Ok(()));
    let dest = format!("{}/dest", root);
    assert_eq!(invoke(&root, Action::Paste, &dest), Ok(()));
    assert!(!Path::new(&src).exists());
    assert_eq!(read(format!("{}/b.txt", dest)).unwrap(), "data");
    assert_eq!(record(&root), "");
    let dest2 = format!("{}/dest2", root);
    assert_eq!(invoke(&root, Action::Paste, &dest2), Err(ClipError::NothingToPaste));
}

#[test]
fn second_mark_replaces_first() {
    let root = scratch("overwrite");
    let a = format!("{}/a", root);
    let b = format!("{}/b", root);
    write(&a, "1").unwrap();
    write(&b, "2").unwrap();
    assert_eq!(invoke(&root, Action::Copy, &a), Ok(()));
    assert_eq!(invoke(&root, Action::Cut, &b), Ok(()));
    assert_eq!(record(&root), format!("cut\n{}", b));
}

#[test]
fn mark_of_missing_path_writes_nothing() {
    let root = scratch("missing_mark");
    let gone = format!("{}/gone", root);
    assert_eq!(invoke(&root, Action::Copy, &gone), Err(ClipError::SourceNotFound));
    assert!(!Path::new(&format!("{}/bin/clipboard", root)).exists());
}

#[test]
fn corrupt_record_leaves_destination_untouched() {
    let root = scratch("corrupt");
    write(format!("{}/bin/clipboard", root), "move\n/somewhere").unwrap();
    let dest = format!("{}/dest", root);
    mkdir(&dest).unwrap();
    assert_eq!(invoke(&root, Action::Paste, &dest), Err(ClipError::InvalidClipboardData));
    let content = dir::get_dir_content(&dest).unwrap();
    assert!(content.files.is_empty());
    assert_eq!(content.directories.len(), 1);
}

#[test]
fn paste_with_no_record_file_finds_nothing() {
    let root = scratch("no_record");
    let dest = format!("{}/dest", root);
    assert_eq!(invoke(&root, Action::Paste, &dest), Err(ClipError::NothingToPaste));
}

#[test]
fn cut_directory_tree_moves_whole() {
    let root = scratch("tree");
    let dir = format!("{}/tree", root);
    mkdir(format!("{}/sub/deeper", dir)).unwrap();
    write(format!("{}/top.txt", dir), "top").unwrap();
    write(format!("{}/sub/mid.txt", dir), "µ ß\u{1F600}\n\t").unwrap();
    write(format!("{}/sub/deeper/low.txt", dir), "low").unwrap();
    assert_eq!(invoke(&root, Action::Cut, &dir), Ok(()));
    let dest = format!("{}/dest", root);
    assert_eq!(invoke(&root, Action::Paste, &dest), Ok(()));
    assert!(!Path::new(&dir).exists());
    let moved = format!("{}/tree", dest);
    assert_eq!(read(format!("{}/top.txt", moved)).unwrap(), "top");
    assert_eq!(read(format!("{}/sub/mid.txt", moved)).unwrap(), "µ ß\u{1F600}\n\t");
    assert_eq!(read(format!("{}/sub/deeper/low.txt", moved)).unwrap(), "low");
    assert_eq!(record(&root), "");
}

#[test]
fn paste_creates_nested_destination() {
    let root = scratch("create_dest");
    let src = format!("{}/c.txt", root);
    write(&src, "c").unwrap();
    assert_eq!(invoke(&root, Action::Copy, &src), Ok(()));
    let dest = format!("{}/x/y/z", root);
    assert_eq!(invoke(&root, Action::Paste, &dest), Ok(()));
    assert_eq!(read(format!("{}/c.txt", dest)).unwrap(), "c");
}

#[test]
fn paste_collision_fails_and_keeps_everything() {
    let root = scratch("collision");
    let src = format!("{}/same.txt", root);
    write(&src, "new").unwrap();
    let dest = format!("{}/dest", root);
    mkdir(&dest).unwrap();
    write(format!("{}/same.txt", dest), "old").unwrap();
    assert_eq!(invoke(&root, Action::Copy, &src), Ok(()));
    let before = record(&root);
    assert_eq!(
        invoke(&root, Action::Paste, &dest),
        Err(ClipError::Transfer(TransferFailure::AlreadyExists))
    );
    assert_eq!(read(&src).unwrap(), "new");
    assert_eq!(read(format!("{}/same.txt", dest)).unwrap(), "old");
    assert_eq!(record(&root), before);
}

#[test]
fn paste_of_vanished_source_reports_it() {
    let root = scratch("vanished");
    let src = format!("{}/v.txt", root);
    write(&src, "v").unwrap();
    assert_eq!(invoke(&root, Action::Copy, &src), Ok(()));
    fs_extra::file::remove(&src).unwrap();
    let dest = format!("{}/dest", root);
    let r = invoke(&root, Action::Paste, &dest);
    assert!(r.is_err());
    assert_eq!(record(&root), format!("copy\n{}", src));
}
