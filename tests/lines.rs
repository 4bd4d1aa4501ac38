use worker_bridge::forward::{forward_line, LineOutcome, StreamKind};
use worker_bridge::lines::LineBuffer;

#[test]
fn trailing_fragment_is_not_a_line() {
    let mut buf = LineBuffer::new();
    let lines = buf.push_bytes(b"a\nb\nc");
    assert_eq!(lines, vec![b"a\n".to_vec(), b"b\n".to_vec()]);
    assert_eq!(buf.finish(), b"c".to_vec());
}

#[test]
fn line_split_across_chunks() {
    let mut buf = LineBuffer::new();
    assert!(buf.push_bytes(b"ab").is_empty());
    let lines = buf.push_bytes(b"c\nd");
    assert_eq!(lines, vec![b"abc\n".to_vec()]);
    let lines = buf.push_bytes(b"e\n");
    assert_eq!(lines, vec![b"de\n".to_vec()]);
    assert_eq!(buf.finish(), Vec::<u8>::new());
}

#[test]
fn empty_chunk_gives_nothing() {
    let mut buf = LineBuffer::new();
    assert!(buf.push_bytes(b"").is_empty());
    assert!(buf.finish().is_empty());
}

#[test]
fn empty_lines_are_kept() {
    let mut buf = LineBuffer::new();
    let lines = buf.push_bytes(b"\n\nx\n");
    assert_eq!(lines, vec![b"\n".to_vec(), b"\n".to_vec(), b"x\n".to_vec()]);
}

#[test]
fn forward_plain_line() {
    match forward_line(b"{\"type\": \"status\"}\n".to_vec()) {
        LineOutcome::Forward { text, logged } => {
            assert_eq!(text, "{\"type\": \"status\"}\n");
            assert_eq!(logged, "{\"type\": \"status\"}\n");
        }
        LineOutcome::Undecodable => panic!("line should decode"),
    }
}

#[test]
fn forward_sensitive_line_unredacted() {
    let line = b"{\"type\": \"config\", \"key\": \"sk-1\"}\n".to_vec();
    match forward_line(line.clone()) {
        LineOutcome::Forward { text, logged } => {
            assert_eq!(text.as_bytes(), line.as_slice());
            assert_eq!(logged, "[REDACTED SENSITIVE DATA]");
        }
        LineOutcome::Undecodable => panic!("line should decode"),
    }
}

#[test]
fn forward_non_ascii_line() {
    let line = "héllo ✓\n".as_bytes().to_vec();
    match forward_line(line) {
        LineOutcome::Forward { text, .. } => assert_eq!(text, "héllo ✓\n"),
        LineOutcome::Undecodable => panic!("line should decode"),
    }
}

#[test]
fn invalid_utf8_is_dropped() {
    assert!(matches!(forward_line(vec![0xff, 0xfe, b'\n']), LineOutcome::Undecodable));
    assert!(matches!(forward_line(vec![b'a', 0xc3, b'\n']), LineOutcome::Undecodable));
}

#[test]
fn stream_event_names() {
    assert_eq!(StreamKind::Stdout.event_name(), "process-stdout");
    assert_eq!(StreamKind::Stderr.event_name(), "process-stderr");
    assert_eq!(StreamKind::Stdout.label(), "stdout");
    assert_eq!(StreamKind::Stderr.label(), "stderr");
}
