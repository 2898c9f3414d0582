use zero2prod::token::{generate_subscription_token, token_from_bytes, TOKEN_LEN};

#[test]
fn bytes_map_to_symbols_modulo_62() {
    let t = token_from_bytes(&vec![0, 25, 26, 51, 52, 61, 62, 255]);
    assert_eq!(t, "AZaz09AH");
}

#[test]
fn empty_bytes_give_empty_token() {
    assert_eq!(token_from_bytes(&vec![]), "");
}

#[test]
fn generated_tokens_are_long_alphanumeric_and_distinct() {
    let a = generate_subscription_token();
    let b = generate_subscription_token();
    assert_eq!(a.chars().count(), TOKEN_LEN);
    assert!(a.len() >= 25);
    assert!(a.chars().all(|c| c.is_ascii_alphanumeric()));
    assert_ne!(a, b);
}
