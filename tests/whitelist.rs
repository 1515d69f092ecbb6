use stated_dialogues::whitelist::{parse_user_id, Whitelist};

#[test]
fn empty_whitelist_allows_everyone() {
    let list = Whitelist::new();
    assert!(list.check_allowed(&1));
    assert!(list.check_allowed(&u64::MAX));
}

#[test]
fn listed_users_only() {
    let list = Whitelist::from_lines(&vec!["  12 ", "", "abc", "+7", "18446744073709551616", "\t3\r"]);
    assert!(list.check_allowed(&12));
    assert!(list.check_allowed(&7));
    assert!(list.check_allowed(&3));
    assert!(!list.check_allowed(&4));
}

#[test]
fn user_id_lines() {
    assert_eq!(parse_user_id("42"), Some(42));
    assert_eq!(parse_user_id(" 42\n"), Some(42));
    assert_eq!(parse_user_id("+0"), Some(0));
    assert_eq!(parse_user_id("18446744073709551615"), Some(u64::MAX));
    assert_eq!(parse_user_id("18446744073709551616"), None);
    assert_eq!(parse_user_id("-1"), None);
    assert_eq!(parse_user_id("+"), None);
    assert_eq!(parse_user_id("4 2"), None);
    assert_eq!(parse_user_id(""), None);
}

#[test]
fn allow_adds_a_user() {
    let mut list = Whitelist::new();
    list.allow(5);
    assert!(list.check_allowed(&5));
    assert!(!list.check_allowed(&6));
}
