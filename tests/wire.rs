use tictactoe::wire::{strip_line_end, LineBuffer};

#[test]
fn line_buffer_cuts_at_newlines_and_keeps_the_rest() {
    let mut b = LineBuffer::new();
    let lines = b.feed(b"hello\nwor");
    assert_eq!(lines, vec![b"hello".to_vec()]);
    assert_eq!(b.pending(), b"wor");
    let lines = b.feed(b"ld\n\nx");
    assert_eq!(lines, vec![b"world".to_vec(), Vec::new()]);
    assert_eq!(b.pending(), b"x");
    assert!(b.feed(b"").is_empty());
    assert_eq!(b.pending(), b"x");
}

#[test]
fn strip_line_end_drops_line_feeds_and_returns() {
    assert_eq!(strip_line_end("5\r\n"), "5");
    assert_eq!(strip_line_end("q\n"), "q");
    assert_eq!(strip_line_end("a\rb\nc"), "abc");
    assert_eq!(strip_line_end(""), "");
    assert_eq!(strip_line_end("été\n"), "été");
}
