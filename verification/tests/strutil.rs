use thunk::strutil::{
    ascii_lower_char, eq_ignore_ascii_case, find_char, first_line, join_spaces, path_join,
    str_eq, str_starts_with, str_trim,
};

#[test]
fn character_case_folding() {
    assert_eq!(ascii_lower_char('A'), 'a');
    assert_eq!(ascii_lower_char('Z'), 'z');
    assert_eq!(ascii_lower_char('a'), 'a');
    assert_eq!(ascii_lower_char('7'), '7');
    assert_eq!(ascii_lower_char('_'), '_');
}

#[test]
fn string_equality() {
    assert!(str_eq("win7", "win7"));
    assert!(!str_eq("win7", "win8"));
    assert!(!str_eq("win7", "win77"));
    assert!(str_eq("", ""));
}

#[test]
fn case_insensitive_equality() {
    assert!(eq_ignore_ascii_case("WIN7", "win7"));
    assert!(eq_ignore_ascii_case("Windows XP", "windows xp"));
    assert!(!eq_ignore_ascii_case("win7", "win8"));
    assert!(!eq_ignore_ascii_case("win", "win7"));
}

#[test]
fn prefix_test() {
    assert!(str_starts_with("--target=i686", "--target"));
    assert!(str_starts_with("--target", "--target"));
    assert!(!str_starts_with("--targe", "--target"));
    assert!(!str_starts_with("target", "--target"));
}

#[test]
fn character_search() {
    assert_eq!(find_char("a=b", '='), Some(1));
    assert_eq!(find_char("a=b=c", '='), Some(1));
    assert_eq!(find_char("abc", '='), None);
    assert_eq!(find_char("", '='), None);
}

#[test]
fn trimming() {
    assert_eq!(str_trim("  x64  "), "x64");
    assert_eq!(str_trim("\t x64\r\n"), "x64");
    assert_eq!(str_trim("x64"), "x64");
    assert_eq!(str_trim("   "), "");
}

#[test]
fn first_lines() {
    assert_eq!(first_line("one\ntwo"), "one");
    assert_eq!(first_line("one\r\ntwo"), "one");
    assert_eq!(first_line("single"), "single");
    assert_eq!(first_line(""), "");
}

#[test]
fn path_joining() {
    assert_eq!(path_join("root", "a/b"), "root/a/b");
    assert_eq!(path_join("root/", "a/b"), "root/a/b");
    assert_eq!(path_join("root\\", "a"), "root\\a");
    assert_eq!(path_join("", "a"), "/a");
}

#[test]
fn joining_with_spaces() {
    let parts: Vec<String> = vec!["-L".to_string(), "path".to_string(), "-C".to_string()];
    assert_eq!(join_spaces(&parts), "-L path -C");
    let one: Vec<String> = vec!["solo".to_string()];
    assert_eq!(join_spaces(&one), "solo");
    let none: Vec<String> = Vec::new();
    assert_eq!(join_spaces(&none), "");
}
