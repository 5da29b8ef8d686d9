use http2fifo::error::Error;
use http2fifo::exit::{
    compute_exit_code, error_line, received, record_signal, report_errors, Signal,
};

fn path(name: &str) -> Vec<u8> {
    name.as_bytes().to_vec()
}

fn http() -> Error {
    Error::Http("HTTP status server error (500 Internal Server Error)".to_string())
}

#[test]
fn http_error_exits_one_and_reports_mount_path() {
    let results = vec![(path("/tmp/stream.fifo"), Err(http()))];
    assert_eq!(compute_exit_code(false, false, &results), 1);
    let lines = report_errors(&results);
    assert_eq!(lines.len(), 1);
    assert!(lines[0].contains(&format!("error: {}:", "/tmp/stream.fifo")));
    assert_eq!(
        lines[0],
        "error: /tmp/stream.fifo: HTTP error: HTTP status server error (500 Internal Server Error)"
    );
}

#[test]
fn signals_decide_the_exit_code_first() {
    let failed = vec![(path("/a"), Err(http()))];
    assert_eq!(compute_exit_code(true, false, &failed), 130);
    assert_eq!(compute_exit_code(true, true, &failed), 130);
    assert_eq!(compute_exit_code(false, true, &failed), 143);
    assert_eq!(compute_exit_code(false, true, &[]), 143);
}

#[test]
fn success_and_failure_decide_the_exit_code_otherwise() {
    assert_eq!(compute_exit_code(false, false, &[]), 0);
    let fine = vec![(path("/a"), Ok(())), (path("/b"), Ok(()))];
    assert_eq!(compute_exit_code(false, false, &fine), 0);
    let mixed = vec![(path("/a"), Ok(())), (path("/b"), Err(Error::Cancelled))];
    assert_eq!(compute_exit_code(false, false, &mixed), 1);
}

#[test]
fn cancelled_mounts_are_not_reported() {
    let results = vec![
        (path("/a"), Err(Error::Cancelled)),
        (path("/b"), Ok(())),
        (path("/c"), Err(Error::FifoAlreadyExists(path("/c")))),
        (vec![b'/', 0xff], Err(Error::Io("broken pipe".to_string()))),
    ];
    assert_eq!(
        report_errors(&results),
        vec![
            "error: /c: path already exists: /c".to_string(),
            "error: /\u{fffd}: I/O error: broken pipe".to_string(),
        ]
    );
    assert_eq!(report_errors(&results[..2]), Vec::<String>::new());
    assert_eq!(error_line("/p", "m"), "error: /p: m");
}

#[test]
fn the_first_signal_is_the_one_that_counts() {
    let none = received(None);
    assert!(!none.sigint && !none.sigterm);
    let interrupt = received(Some(Signal::Interrupt));
    assert!(interrupt.sigint && !interrupt.sigterm);
    let terminate = received(Some(Signal::Terminate));
    assert!(!terminate.sigint && terminate.sigterm);
    assert_eq!(compute_exit_code(interrupt.sigint, interrupt.sigterm, &[]), 130);
    assert_eq!(compute_exit_code(terminate.sigint, terminate.sigterm, &[]), 143);
}

#[test]
fn the_first_signal_cancels_and_later_ones_change_nothing() {
    let (first, cancels) = record_signal(None, Signal::Terminate);
    assert!(matches!(first, Some(Signal::Terminate)));
    assert!(cancels);
    let (again, cancels) = record_signal(first, Signal::Interrupt);
    assert!(matches!(again, Some(Signal::Terminate)));
    assert!(!cancels);
    let flags = received(again);
    assert!(!flags.sigint && flags.sigterm);
}

#[test]
fn utf8_paths_are_reported_as_they_are() {
    let results = vec![(
        path("/tmp/b\u{e9}.fifo"),
        Err(Error::FifoAlreadyExists(path("/tmp/\u{1f4fb}"))),
    )];
    assert_eq!(
        report_errors(&results),
        vec!["error: /tmp/b\u{e9}.fifo: path already exists: /tmp/\u{1f4fb}".to_string()]
    );
}
