use http2fifo::error::{already_exists_message, Error};
use http2fifo::text::{bytes_of, is_white_space, trim};

#[test]
fn white_space_is_that_of_unicode() {
    for c in '\u{0}'..=char::MAX {
        assert_eq!(is_white_space(c), c.is_whitespace(), "at {:?}", c);
    }
}

#[test]
fn trim_removes_white_space_at_both_ends_only() {
    assert_eq!(trim("  a b\t"), "a b");
    assert_eq!(trim("\u{3000}\u{e9}\u{a0}"), "\u{e9}");
    assert_eq!(trim("plain"), "plain");
    assert_eq!(trim(" \n "), "");
    assert_eq!(trim(""), "");
}

#[test]
fn leading_white_space_makes_no_difference() {
    assert_eq!(trim(" value "), trim("value "));
}

#[test]
fn bytes_are_utf8() {
    assert_eq!(bytes_of("a\u{e9}"), vec![b'a', 0xc3, 0xa9]);
}

#[test]
fn error_messages() {
    let path = b"/tmp/a.fifo".to_vec();
    assert_eq!(
        Error::FifoAlreadyExists(path).message(),
        "path already exists: /tmp/a.fifo"
    );
    assert_eq!(
        Error::FifoAlreadyExists(vec![b'/', 0xff, b'a']).message(),
        "path already exists: /\u{fffd}a"
    );
    assert_eq!(
        already_exists_message("/tmp/b"),
        "path already exists: /tmp/b"
    );
    assert_eq!(
        Error::FifoCreate("no space".to_string()).message(),
        "failed to create FIFO: no space"
    );
    assert_eq!(Error::Io("broken pipe".to_string()).message(), "I/O error: broken pipe");
    assert_eq!(Error::Http("timed out".to_string()).message(), "HTTP error: timed out");
    assert_eq!(Error::Cancelled.message(), "cancelled");
}
