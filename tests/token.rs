use std::collections::HashSet;
use zero2prod::token::{generate_token, TOKEN_LEN};

#[test]
fn tokens_have_the_fixed_shape() {
    let t = generate_token();
    assert_eq!(TOKEN_LEN, 25);
    assert_eq!(t.chars().count(), 25);
    assert!(t.chars().all(|c| c.is_ascii_alphanumeric()));
}

#[test]
fn ten_thousand_tokens_are_distinct() {
    let mut seen = HashSet::new();
    for _ in 0..10_000 {
        let t = generate_token();
        assert_eq!(t.len(), 25);
        assert!(t.chars().all(|c| c.is_ascii_alphanumeric()));
        assert!(seen.insert(t));
    }
}
