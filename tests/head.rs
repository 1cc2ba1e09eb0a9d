use fs_utils_ffi::head::{head_to_string, head_to_string_with_message, probe_length, take_head};

#[test]
fn short_content_is_returned_whole() {
    assert_eq!(take_head(b"abc", 10), b"abc".to_vec());
    assert_eq!(take_head(b"abc", 3), b"abc".to_vec());
}

#[test]
fn long_content_is_cut_at_limit() {
    assert_eq!(take_head(b"hello world", 5), b"hello".to_vec());
}

#[test]
fn zero_limit_gives_empty() {
    assert_eq!(take_head(b"hello", 0), Vec::<u8>::new());
    assert_eq!(head_to_string(b"hello", 0), "");
}

#[test]
fn probe_is_one_past_limit() {
    assert_eq!(probe_length(3), 4);
    assert_eq!(probe_length(0), 1);
    assert_eq!(probe_length(usize::MAX), usize::MAX);
}

#[test]
fn head_decodes_text() {
    assert_eq!(head_to_string(b"hello", 3), "hel");
    assert_eq!(head_to_string("été".as_bytes(), 100), "été");
}

#[test]
fn cut_inside_a_character_never_yields_a_broken_one() {
    // "é" is two bytes; a limit of one keeps half of it.
    let r = head_to_string("é".as_bytes(), 1);
    assert_eq!(r, "\u{FFFD}");
    let r = head_to_string("aé".as_bytes(), 2);
    assert_eq!(r, "a\u{FFFD}");
}

#[test]
fn invalid_sequences_are_replaced_per_sequence() {
    // A truncated three-byte sequence is one error, not two.
    assert_eq!(head_to_string(&[0x61, 0xE2, 0x82, 0x62], 10), "a\u{FFFD}b");
    assert_eq!(head_to_string(&[0xFF, 0xFF], 10), "\u{FFFD}\u{FFFD}");
}

#[test]
fn message_appended_when_truncated() {
    assert_eq!(head_to_string_with_message(b"hello", 3, "..."), "hel...");
}

#[test]
fn message_appended_from_probe() {
    let limit = 3;
    let probe = take_head(b"hello", probe_length(limit));
    assert_eq!(probe, b"hell".to_vec());
    assert_eq!(head_to_string_with_message(&probe, limit, "..."), "hel...");
}

#[test]
fn message_absent_when_not_truncated() {
    assert_eq!(head_to_string_with_message(b"hello", 5, "..."), "hello");
    assert_eq!(head_to_string_with_message(b"hello", 9, "..."), "hello");
    assert_eq!(head_to_string_with_message(b"", 0, "..."), "");
}

#[test]
fn message_after_empty_head() {
    assert_eq!(head_to_string_with_message(b"x", 0, "[cut]"), "[cut]");
}
