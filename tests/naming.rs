use tab_namer::config::{eq_ignore_ascii_case, is_truthy};
use tab_namer::text::{derive_tab_name, is_space_char, starts_with, trim};

fn name(title: &str) -> Option<String> {
    derive_tab_name(title)
}

#[test]
fn name_is_first_word_without_separator() {
    assert_eq!(name("nvim ~/proj/main.rs"), Some("nvim".to_string()));
}

#[test]
fn name_is_last_segment_of_path() {
    assert_eq!(name("  /usr/bin/htop --flag"), Some("htop".to_string()));
}

#[test]
fn empty_title_gives_no_name() {
    assert_eq!(name(""), None);
}

#[test]
fn blank_title_gives_no_name() {
    assert_eq!(name("   \t\n "), None);
    assert_eq!(name("\u{3000}\u{a0}"), None);
}

#[test]
fn trailing_separator_gives_empty_name() {
    assert_eq!(name("dir/ rest"), Some(String::new()));
}

#[test]
fn single_word_is_kept() {
    assert_eq!(name("bash"), Some("bash".to_string()));
}

#[test]
fn relative_path_is_cut() {
    assert_eq!(name("\t./target/debug/app arg"), Some("app".to_string()));
}

#[test]
fn unicode_title_is_cut_by_characters() {
    assert_eq!(name("ré/sumé\u{2003}x"), Some("sumé".to_string()));
}

#[test]
fn spaces_are_unicode_white_space() {
    assert!(is_space_char(' '));
    assert!(is_space_char('\t'));
    assert!(is_space_char('\u{85}'));
    assert!(is_space_char('\u{2028}'));
    assert!(!is_space_char('a'));
    assert!(!is_space_char('\u{200b}'));
    assert!(!is_space_char('/'));
}

#[test]
fn trim_removes_both_ends() {
    assert_eq!(trim("  a b \n"), "a b");
    assert_eq!(trim("   "), "");
    assert_eq!(trim(""), "");
    assert_eq!(trim("x"), "x");
}

#[test]
fn starts_with_checks_prefix() {
    assert!(starts_with("!pinned", "!"));
    assert!(starts_with("abc", ""));
    assert!(starts_with("abc", "abc"));
    assert!(!starts_with("ab", "abc"));
    assert!(!starts_with("xabc", "abc"));
}

#[test]
fn ascii_case_is_ignored() {
    assert!(eq_ignore_ascii_case("YeS", "yes"));
    assert!(!eq_ignore_ascii_case("yes", "ye"));
    assert!(!eq_ignore_ascii_case("yes", "yet"));
}

#[test]
fn truthy_words() {
    for s in ["true", "t", "yes", "y", "1", "TRUE", "Yes", " y ", "\tT\n"] {
        assert!(is_truthy(s), "{s:?}");
    }
    for s in ["no", "false", "0", "", "yess", "on", "tr ue"] {
        assert!(!is_truthy(s), "{s:?}");
    }
}
