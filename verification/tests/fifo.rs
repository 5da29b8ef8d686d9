use http2fifo::config::{Config, Method};
use http2fifo::error::Error;
use http2fifo::fifo::{
    blocking_flags, classify_open_failure, clear_flags, create_fifo, fifo_created, open_failed,
    open_fifo_write, wait_for_reader, FifoGuard, OpenOutcome,
};
use http2fifo::mount;
use http2fifo::mount::{Action, Reply};
use rustix::fs::{lstat, mknodat, open, unlink, FileType, Mode, OFlags, CWD};
use tempfile::TempDir;

/// A unique FIFO path inside a fresh temporary directory.
fn tmp() -> (TempDir, Vec<u8>) {
    let dir = TempDir::new().unwrap();
    let path = dir.path().join("test.fifo");
    let bytes = path.to_str().unwrap().as_bytes().to_vec();
    (dir, bytes)
}

fn on_disk(path: &Vec<u8>) -> bool {
    lstat(path.as_slice()).is_ok()
}

fn make(path: &Vec<u8>) -> Result<FifoGuard, Error> {
    let fifo = create_fifo(path, on_disk(path))?;
    assert_eq!(&fifo.path, path);
    let mode = Mode::from_raw_mode(fifo.mode);
    let made = mknodat(CWD, fifo.path.as_slice(), FileType::Fifo, mode, 0);
    fifo_created(path, made.map_err(|e| e.to_string()))
}

fn attempt(path: &Vec<u8>) -> OpenOutcome {
    let flags = OFlags::WRONLY | OFlags::NONBLOCK;
    match open(path.as_slice(), flags, Mode::empty()) {
        Ok(_) => OpenOutcome::Opened,
        Err(e) => open_failed(e.raw_os_error(), e.to_string()),
    }
}

#[test]
fn create_fifo_makes_fifo() {
    let (_dir, path) = tmp();

    let guard = make(&path).expect("create_fifo failed");
    assert_eq!(guard.path(), &path);

    let meta = lstat(path.as_slice()).expect("path should exist");
    let kind = FileType::from_raw_mode(meta.st_mode);
    assert!(kind.is_fifo(), "expected a FIFO, got {:?}", kind);
    assert_eq!(meta.st_mode & 0o777, 0o600);
}

#[test]
fn create_fifo_guard_unlinks_on_drop() {
    let (_dir, path) = tmp();

    let guard = make(&path).expect("create_fifo failed");
    assert!(on_disk(&path), "FIFO should exist before drop");

    unlink(guard.path().as_slice()).unwrap();
    assert!(!on_disk(&path), "FIFO should be gone after drop");
}

/// Runs a mount of the FIFO at `path` on disk, with no reader, and cancels it.
/// Gives back how it ended, how often its FIFO was seen before it was unlinked,
/// and how often it was unlinked.
fn run_without_reader(path: &Vec<u8>) -> (Error, usize, usize) {
    let (mut seen, mut unlinked) = (0, 0);
    let (mut current, mut action) = mount(Config {
        url: "http://a.test".to_string(),
        method: Method::parse("GET").unwrap(),
        body: None,
        headers: vec![],
        fifo_path: path.clone(),
    });
    loop {
        let reply = match action {
            Action::Probe(probed) => Reply::Probed(on_disk(&probed)),
            Action::Make(fifo) => {
                let mode = Mode::from_raw_mode(fifo.mode);
                let made = mknodat(CWD, fifo.path.as_slice(), FileType::Fifo, mode, 0);
                Reply::Made(made.map_err(|e| e.to_string()))
            }
            Action::Open => Reply::Attempted(attempt(path)),
            Action::AskCancelled => Reply::CancelState(true),
            Action::Unlink(guard) => {
                seen += usize::from(on_disk(path));
                unlink(guard.path().as_slice()).unwrap();
                unlinked += 1;
                Reply::Unlinked
            }
            Action::Return(e) => return (e, seen, unlinked),
            other => panic!("got {other:?}"),
        };
        assert!(current.awaits(&reply));
        (current, action) = current.step(reply);
    }
}

#[test]
fn mount_unlinks_the_fifo_that_it_made() {
    let (_dir, path) = tmp();
    assert_eq!(run_without_reader(&path), (Error::Cancelled, 1, 1));
    assert!(!on_disk(&path), "FIFO should be gone after the mount");
}

#[test]
fn mount_leaves_an_entry_that_it_did_not_make() {
    let (_dir, path) = tmp();
    let _guard = make(&path).unwrap();
    let expected = Error::FifoAlreadyExists(path.clone());
    assert_eq!(run_without_reader(&path), (expected, 0, 0));
    assert!(on_disk(&path), "the entry is still there");
}

#[test]
fn create_fifo_double_create_errors() {
    let (_dir, path) = tmp();

    let _guard = make(&path).expect("first create_fifo failed");
    let err = make(&path).expect_err("second create_fifo should fail");

    assert!(
        matches!(err, Error::FifoAlreadyExists(_)),
        "expected FifoAlreadyExists, got {}",
        err.message()
    );
    assert_eq!(err, Error::FifoAlreadyExists(path));
}

#[test]
fn create_fifo_regular_file_conflict() {
    let (_dir, path) = tmp();

    let mode = Mode::RUSR | Mode::WUSR;
    open(path.as_slice(), OFlags::CREATE | OFlags::WRONLY, mode)
        .expect("failed to create regular file");
    let err = make(&path).expect_err("create_fifo on existing file should fail");

    assert!(
        matches!(err, Error::FifoAlreadyExists(_)),
        "expected FifoAlreadyExists, got {}",
        err.message()
    );
}

#[test]
fn create_fifo_in_missing_directory_errors() {
    let (_dir, mut path) = tmp();
    path.extend_from_slice(b"/missing/test.fifo");
    let err = make(&path).expect_err("there is no such directory");
    assert!(matches!(err, Error::FifoCreate(_)));
    assert!(err.message().starts_with("failed to create FIFO: "));
}

#[test]
fn open_fifo_write_succeeds_when_reader_present() {
    let (_dir, path) = tmp();
    let _guard = make(&path).unwrap();

    // Opening the read end with O_NONBLOCK succeeds without a writer.
    let flags = OFlags::RDONLY | OFlags::NONBLOCK;
    let _reader = open(path.as_slice(), flags, Mode::empty()).expect("open read end failed");

    assert_eq!(open_fifo_write(attempt(&path)), Ok(true));
}

#[test]
fn open_fifo_write_cancelled_while_waiting() {
    let (_dir, path) = tmp();
    let _guard = make(&path).unwrap();

    // No reader will ever appear.
    assert_eq!(open_fifo_write(attempt(&path)), Ok(false));
    assert_eq!(wait_for_reader(false), Ok(50));
    assert_eq!(open_fifo_write(attempt(&path)), Ok(false));
    assert_eq!(wait_for_reader(true), Err(Error::Cancelled));
}

#[test]
fn open_of_missing_fifo_is_an_io_error() {
    let (_dir, path) = tmp();
    let result = open_fifo_write(attempt(&path));
    assert!(matches!(result, Err(Error::Io(_))), "got {result:?}");
}

#[test]
fn open_failures_are_told_apart_by_number() {
    assert!(matches!(
        classify_open_failure(6, 6, "six".to_string()),
        OpenOutcome::NoReader
    ));
    match classify_open_failure(2, 6, "two".to_string()) {
        OpenOutcome::Failed(detail) => assert_eq!(detail, "two"),
        other => panic!("got {other:?}"),
    }
}

#[test]
fn ordinary_failures_to_open_are_failures() {
    for code in [0, 1, 2, 5, 7, 13, 20, 24, -6] {
        match open_failed(code, format!("error {}", code)) {
            OpenOutcome::Failed(detail) => assert_eq!(detail, format!("error {}", code)),
            other => panic!("got {other:?} for {code}"),
        }
    }
    let code = rustix::io::Errno::NXIO.raw_os_error();
    assert!([6, 60, 30, 1073741830, -2147454965].contains(&code));
    assert!(matches!(open_failed(code, String::new()), OpenOutcome::NoReader));
}

#[test]
fn nonblocking_flag_is_cleared_and_no_other() {
    let nonblock = OFlags::NONBLOCK.bits();
    let append = OFlags::APPEND.bits();
    let write = OFlags::WRONLY.bits();
    assert_ne!(nonblock, 0);
    assert!([2048, 128, 16384, 4, 8, 16, 0x40000].contains(&nonblock));
    assert_eq!(blocking_flags(u32::MAX), u32::MAX - nonblock);
    assert_eq!(blocking_flags(nonblock | append | write), append | write);
    assert_eq!(blocking_flags(write), write);
    assert_eq!(clear_flags(0b1111, 0b0101), 0b1010);
    assert_eq!(clear_flags(0b0010, 0b0101), 0b0010);
}
