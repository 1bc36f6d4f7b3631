use watchbench::payload::{generate_payload, str_eq};

#[test]
fn small_payload_is_100_xs() {
    assert_eq!(generate_payload("small"), "x".repeat(100));
}

#[test]
fn medium_payload_is_1000_xs() {
    assert_eq!(generate_payload("medium"), "x".repeat(1000));
}

#[test]
fn large_payload_is_10000_xs() {
    assert_eq!(generate_payload("large"), "x".repeat(10000));
}

#[test]
fn other_selectors_give_the_empty_payload() {
    assert_eq!(generate_payload(""), "");
    assert_eq!(generate_payload("huge"), "");
    assert_eq!(generate_payload("Small"), "");
}

#[test]
fn str_eq_compares_by_characters() {
    assert!(str_eq("", ""));
    assert!(str_eq("abc", "abc"));
    assert!(!str_eq("abc", "abd"));
    assert!(!str_eq("abc", "abcd"));
    assert!(str_eq("später", "später"));
    assert!(!str_eq("später", "spater"));
}
