use kd::render::clear_screen_sequence;

#[test]
fn test_clear_screen_ansi_sequence() {
    let clear_seq = clear_screen_sequence();
    assert_eq!(clear_seq, "\x1B[2J\x1B[1;1H");
    assert!(clear_seq.starts_with("\x1B[2J"));
    assert!(clear_seq.contains("\x1B[1;1H"));
}

#[test]
fn test_clear_screen_sequence_length() {
    let clear_seq = clear_screen_sequence();
    assert!(clear_seq.len() >= 10);
}

#[test]
fn test_clear_screen_format() {
    let clear_seq = clear_screen_sequence();
    assert!(clear_seq.contains('\x1B'));
    assert!(clear_seq.contains("2J"));
    assert!(clear_seq.contains("1;1H"));
}
