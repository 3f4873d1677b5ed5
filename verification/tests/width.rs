use debug_assistant::width::{byte_index_at_width, clipped_text_checked, clipped_text_with_cursor, take_width};

#[test]
fn take_width_stops_before_overflowing() {
    assert_eq!(take_width("hello", 3), "hel");
    assert_eq!(take_width("中文ab", 3), "中");
    assert_eq!(take_width("ab", 10), "ab");
    assert_eq!(take_width("a\u{7}b", 2), "a\u{7}b");
}

#[test]
fn byte_index_at_width_counts_columns() {
    assert_eq!(byte_index_at_width("hello", 2), 2);
    assert_eq!(byte_index_at_width("中文ab", 3), 6);
    assert_eq!(byte_index_at_width("ab", 5), 2);
    assert_eq!(byte_index_at_width("ab", 0), 0);
}

#[test]
fn clipping_a_field() {
    assert_eq!(clipped_text_with_cursor("abc", 1, 10), ("abc".to_string(), 1));
    assert_eq!(clipped_text_with_cursor("abcdef", 0, 0), (String::new(), 0));
    assert_eq!(clipped_text_with_cursor("abcdef", 2, 3), ("...".to_string(), 0));
    assert_eq!(clipped_text_with_cursor("abcdefgh", 2, 6), ("abc...".to_string(), 2));
    assert_eq!(clipped_text_with_cursor("abcdefgh", 8, 6), ("...fgh".to_string(), 6));
    assert_eq!(clipped_text_with_cursor("abc", 99, 10), ("abc".to_string(), 3));
    assert_eq!(clipped_text_checked("中", 1, 10), None);
    assert_eq!(clipped_text_checked("ab", 1, 10), Some(("ab".to_string(), 1)));
}
