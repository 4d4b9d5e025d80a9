use koosh_cursor_tools::text::{
    frame_label, join_lines, join_with, parse_u32, split_lines, str_ends_with, str_eq,
    str_starts_with, u32_to_string,
};

#[test]
fn decimal_rendering() {
    assert_eq!(u32_to_string(0), "0");
    assert_eq!(u32_to_string(7), "7");
    assert_eq!(u32_to_string(24), "24");
    assert_eq!(u32_to_string(96), "96");
    assert_eq!(u32_to_string(1234), "1234");
    assert_eq!(u32_to_string(u32::MAX), "4294967295");
}

#[test]
fn frame_labels_are_zero_padded() {
    assert_eq!(frame_label(0), "000");
    assert_eq!(frame_label(7), "007");
    assert_eq!(frame_label(42), "042");
    assert_eq!(frame_label(123), "123");
    assert_eq!(frame_label(1234), "1234");
}

#[test]
fn parse_simple_numbers() {
    assert_eq!(parse_u32("48"), Some(48));
    assert_eq!(parse_u32("0"), Some(0));
    assert_eq!(parse_u32(" 48\n"), Some(48));
    assert_eq!(parse_u32("\t96 \r\n"), Some(96));
    assert_eq!(parse_u32("+7"), Some(7));
}

#[test]
fn parse_rejects_bad_input() {
    assert_eq!(parse_u32(""), None);
    assert_eq!(parse_u32("   "), None);
    assert_eq!(parse_u32("4x8"), None);
    assert_eq!(parse_u32("abc"), None);
    assert_eq!(parse_u32("-3"), None);
    assert_eq!(parse_u32("+"), None);
}

#[test]
fn parse_respects_the_limit() {
    assert_eq!(parse_u32("4294967295"), Some(u32::MAX));
    assert_eq!(parse_u32("4294967296"), None);
    assert_eq!(parse_u32("99999999999999999999"), None);
}

#[test]
fn lines_split_on_line_feeds() {
    assert_eq!(split_lines("a\nb"), vec!["a", "b"]);
    assert_eq!(split_lines("a\nb\n"), vec!["a", "b"]);
    assert_eq!(split_lines(""), Vec::<String>::new());
    assert_eq!(split_lines("\n"), vec![""]);
    assert_eq!(split_lines("a\r\nb"), vec!["a", "b"]);
    assert_eq!(split_lines("a\rb\nc"), vec!["a\rb", "c"]);
    assert_eq!(split_lines("tail\r"), vec!["tail\r"]);
}

#[test]
fn lines_join_with_line_feeds() {
    assert_eq!(join_lines(&vec!["a".to_string(), "b".to_string()]), "a\nb");
    assert_eq!(join_lines(&Vec::new()), "");
    assert_eq!(join_lines(&vec!["only".to_string()]), "only");
}

#[test]
fn join_with_other_separators() {
    let args = vec!["-f".to_string(), "-t".to_string(), "dir".to_string()];
    assert_eq!(join_with(&args, " "), "-f -t dir");
}

#[test]
fn string_predicates() {
    assert!(str_eq("abc", "abc"));
    assert!(!str_eq("abc", "abd"));
    assert!(str_starts_with("name = x", "name = "));
    assert!(!str_starts_with("nam", "name = "));
    assert!(str_ends_with("wait_000.png", ".png"));
    assert!(!str_ends_with("png", "file.png"));
}
