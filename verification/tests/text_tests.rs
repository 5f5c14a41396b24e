use yggdrasilctl::text::{find_char, spaces, starts_with, text_equal};

#[test]
fn find_char_gives_the_first_position() {
    assert_eq!(find_char("a=b=c", '='), Some(1));
    assert_eq!(find_char("=", '='), Some(0));
    assert_eq!(find_char("abc=", '='), Some(3));
    assert_eq!(find_char("abc", '='), None);
    assert_eq!(find_char("", '='), None);
}

#[test]
fn find_char_counts_characters() {
    assert_eq!(find_char("ключ=значение", '='), Some(4));
    assert_eq!(find_char("日本語", '語'), Some(2));
}

#[test]
fn text_equal_compares_characters() {
    assert!(text_equal("success", "success"));
    assert!(text_equal("", ""));
    assert!(!text_equal("success", "Success"));
    assert!(!text_equal("success", "succes"));
    assert!(!text_equal("succes", "success"));
    assert!(!text_equal("", "a"));
    assert!(text_equal("ключ", "ключ"));
    assert!(!text_equal("ключ", "клюя"));
}

#[test]
fn starts_with_checks_the_prefix() {
    assert!(starts_with("tcp://host", "tcp://"));
    assert!(starts_with("tcp://", "tcp://"));
    assert!(starts_with("anything", ""));
    assert!(starts_with("", ""));
    assert!(!starts_with("tcp:/", "tcp://"));
    assert!(!starts_with("xtcp://", "tcp://"));
    assert!(!starts_with("", "t"));
}

#[test]
fn spaces_makes_that_many() {
    assert_eq!(spaces(0), "");
    assert_eq!(spaces(1), " ");
    assert_eq!(spaces(7), "       ");
}
