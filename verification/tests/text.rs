use dfiles::text::{decimal_string, equal, find, find_from, slice, split_lines, starts_with};

#[test]
fn decimal_renders_numbers() {
    assert_eq!(decimal_string(0), "0");
    assert_eq!(decimal_string(7), "7");
    assert_eq!(decimal_string(10), "10");
    assert_eq!(decimal_string(1000), "1000");
    assert_eq!(decimal_string(65534), "65534");
    assert_eq!(decimal_string(u32::MAX), "4294967295");
}

#[test]
fn find_gives_first_position() {
    assert_eq!(find("a:b:c", ':'), Some(1));
    assert_eq!(find("abc", ':'), None);
    assert_eq!(find("", ':'), None);
    assert_eq!(find_from("a:b:c", ':', 2), Some(3));
    assert_eq!(find_from("a:b:c", ':', 4), None);
    assert_eq!(find_from("a:b", ':', 17), None);
}

#[test]
fn find_counts_characters_not_bytes() {
    assert_eq!(find("é:b", ':'), Some(1));
    assert_eq!(slice("é:b", 2, 3), "b");
}

#[test]
fn starts_with_compares_prefix() {
    assert!(starts_with("video0", "video"));
    assert!(starts_with("video", "video"));
    assert!(!starts_with("vide", "video"));
    assert!(!starts_with("audio", "video"));
    assert!(starts_with("anything", ""));
}

#[test]
fn equal_compares_whole_text() {
    assert!(equal("audio", "audio"));
    assert!(!equal("audio", "audi"));
    assert!(!equal("audio", "video"));
    assert!(equal("", ""));
}

#[test]
fn lines_are_split_at_line_endings() {
    assert_eq!(split_lines("one"), vec!["one"]);
    assert_eq!(split_lines("one\ntwo"), vec!["one", "two"]);
    assert_eq!(split_lines("one\ntwo\n"), vec!["one", "two"]);
    assert_eq!(split_lines("one\r\ntwo"), vec!["one", "two"]);
    assert_eq!(split_lines("one\n\ntwo"), vec!["one", "", "two"]);
    assert_eq!(split_lines(""), Vec::<String>::new());
    assert_eq!(split_lines("\n"), vec![""]);
}
