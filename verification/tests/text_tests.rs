use task_api::text::{decimal, is_filled, same_text, strip_prefix};

#[test]
fn decimal_matches_to_string() {
    for i in [0, 7, 9, 10, 42, 55, 100, 1234567, -1, -42, -1000, i32::MAX, i32::MIN] {
        assert_eq!(decimal(i), i.to_string());
    }
}

#[test]
fn strip_prefix_matches_std() {
    for (s, p) in [("Bearer abc", "Bearer "), ("Bearer ", "Bearer "), ("Basic abc", "Bearer "), ("Bear", "Bearer "), ("", ""), ("ação", "a")] {
        assert_eq!(strip_prefix(s, p), s.strip_prefix(p));
    }
}

#[test]
fn same_text_compares_characters() {
    assert!(same_text("admin", "admin"));
    assert!(!same_text("admin", "Admin"));
    assert!(!same_text("admin", "admins"));
    assert!(same_text("", ""));
}

#[test]
fn filled_means_given_and_not_empty() {
    assert!(is_filled(&Some("x".to_owned())));
    assert!(!is_filled(&Some(String::new())));
    assert!(!is_filled(&None));
}
