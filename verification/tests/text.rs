use python_finder::text::split_line;

fn cut(bytes: &[u8]) -> Option<(Vec<u8>, Vec<u8>)> {
    split_line(bytes).map(|(line, rest)| (line.to_vec(), rest.to_vec()))
}

#[test]
fn no_bytes_hold_no_line() {
    assert_eq!(cut(b""), None);
}

#[test]
fn a_line_feed_ends_the_line() {
    assert_eq!(cut(b"one\ntwo\n"), Some((b"one".to_vec(), b"two\n".to_vec())));
    assert_eq!(cut(b"two\n"), Some((b"two".to_vec(), b"".to_vec())));
    assert_eq!(cut(b"\n"), Some((b"".to_vec(), b"".to_vec())));
    assert_eq!(cut(b"\n\n"), Some((b"".to_vec(), b"\n".to_vec())));
}

#[test]
fn the_end_of_the_bytes_ends_the_line() {
    assert_eq!(cut(b"one"), Some((b"one".to_vec(), b"".to_vec())));
    assert_eq!(cut(b"one\ntwo"), Some((b"one".to_vec(), b"two".to_vec())));
}

#[test]
fn a_carriage_return_before_the_line_feed_is_dropped() {
    assert_eq!(cut(b"one\r\ntwo"), Some((b"one".to_vec(), b"two".to_vec())));
    assert_eq!(cut(b"\r\n"), Some((b"".to_vec(), b"".to_vec())));
    assert_eq!(cut(b"one\r\r\n"), Some((b"one\r".to_vec(), b"".to_vec())));
}

#[test]
fn a_carriage_return_elsewhere_stays() {
    assert_eq!(cut(b"one\r"), Some((b"one\r".to_vec(), b"".to_vec())));
    assert_eq!(cut(b"o\rne\n"), Some((b"o\rne".to_vec(), b"".to_vec())));
    assert_eq!(cut(b"\r"), Some((b"\r".to_vec(), b"".to_vec())));
}

#[test]
fn bytes_that_are_no_text_are_cut_all_the_same() {
    assert_eq!(
        cut(&[0xff, 0xfe, 10, 0x80]),
        Some((vec![0xff, 0xfe], vec![0x80]))
    );
}
