use pipecat::status::{erase_line_bytes, render_status};

const ERASE: &[u8] = b"\x1b[2K\r";

/// What a terminal line shows after `written` arrives while it showed
/// `line`: a write led by the erase-line control bytes replaces the line.
fn line_after(line: &[u8], written: &[u8]) -> Vec<u8> {
    if written.starts_with(ERASE) {
        written[ERASE.len()..].to_vec()
    } else {
        let mut v = line.to_vec();
        v.extend_from_slice(written);
        v
    }
}

#[test]
fn erase_sequence_bytes() {
    assert_eq!(erase_line_bytes(), ERASE.to_vec());
}

#[test]
fn update_erases_before_writing() {
    let w = render_status(&b"DNS, ...".to_vec());
    assert!(w.starts_with(ERASE));
    assert_eq!(&w[ERASE.len()..], b"DNS, ...");
}

#[test]
fn only_the_latest_update_is_visible() {
    // However many transient updates are written, the line shows only the
    // last one: retries overwrite in place instead of scrolling.
    let mut line: Vec<u8> = Vec::new();
    for text in [&b"DNS, ..."[..], b"DNS, timed out", b"DNS, timed out", b"TCP, ..."] {
        let w = render_status(&text.to_vec());
        line = line_after(&line, &w);
        assert_eq!(line, text.to_vec());
    }
    assert_eq!(line, b"TCP, ...".to_vec());
}

#[test]
fn empty_update_clears_the_line() {
    let mut line: Vec<u8> = b"TCP, ...".to_vec();
    let w = render_status(&Vec::new());
    line = line_after(&line, &w);
    assert!(line.is_empty());
}
