use std::collections::HashSet;

use newsletter::token::generate_subscription_token;

#[test]
fn tokens_are_25_alphanumeric_characters() {
    for _ in 0..100 {
        let token = generate_subscription_token();

        assert_eq!(token.chars().count(), 25);
        assert!(token.chars().all(|c| c.is_ascii_alphanumeric()));
    }
}

#[test]
fn ten_thousand_tokens_have_no_collision() {
    let mut seen = HashSet::new();

    for _ in 0..10_000 {
        assert!(seen.insert(generate_subscription_token()));
    }
}
