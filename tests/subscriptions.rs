use zero2prod::store::{StorageError, SubscriptionStatus, SubscriptionStore};
use zero2prod::subscriptions::{
    confirmation_email, confirmation_link, delivery_outcome, subscribe, subscribe_with_fresh_token,
    ApplicationBaseUrl, SubscriptionError,
};

fn base_url() -> ApplicationBaseUrl {
    ApplicationBaseUrl("http://127.0.0.1:8000".to_string())
}

fn status_of(result: &Result<zero2prod::subscriptions::ConfirmationEmail, SubscriptionError>) -> u16 {
    match result {
        Ok(_) => 200,
        Err(e) => e.status_code(),
    }
}

#[test]
fn subscribe_returns_a_200_for_valid_form_data() {
    let mut store = SubscriptionStore::new();
    let result = subscribe(
        &mut store,
        &base_url(),
        "BoatyMcBoatFace".to_string(),
        "test_user@gmail.com".to_string(),
        1,
        "tok1",
        100,
    );
    assert_eq!(200, status_of(&result));
    let saved = store.subscriber_at(0);
    assert_eq!(saved.email, "test_user@gmail.com");
    assert_eq!(saved.name, "BoatyMcBoatFace")
}

#[test]
fn subscribe_returns_a_400_when_fields_are_present_but_empty() {
    let test_cases = vec![
        ("", "test@test.com", "empty name"),
        ("dude", "", "empty email"),
        ("dude", "not-a-valid-email", "invalid email"),
    ];
    for (name, email, description) in test_cases {
        let mut store = SubscriptionStore::new();
        let result = subscribe(&mut store, &base_url(), name.to_string(), email.to_string(), 1, "t", 0);
        assert_eq!(
            400,
            status_of(&result),
            "The API did not return a 400 Bad Request when the payload was {}.",
            description
        );
        assert_eq!(store.subscriber_count(), 0);
        assert_eq!(store.token_count(), 0);
    }
}

#[test]
fn subscribe_sends_a_confirmation_email_for_valid_data() {
    let mut store = SubscriptionStore::new();
    let mail = subscribe(
        &mut store,
        &base_url(),
        "BoatyMcBoatFace".to_string(),
        "test_user@gmail.com".to_string(),
        7,
        "abcXYZ123",
        0,
    )
    .ok()
    .unwrap();
    let link = "http://127.0.0.1:8000/subscriptions/confirm?subscription_token=abcXYZ123";
    assert_eq!(mail.recipient, "test_user@gmail.com");
    assert_eq!(mail.subject, "Welcome!");
    assert!(mail.html_body.contains(link));
    assert!(mail.text_body.contains(link));
}

#[test]
fn first_subscription_stores_one_pending_subscriber_and_one_token() {
    let mut store = SubscriptionStore::new();
    let result = subscribe(
        &mut store,
        &base_url(),
        "BoatyMcBoatFace".to_string(),
        "test_user@gmail.com".to_string(),
        42,
        "tokenA",
        5,
    );
    assert!(result.is_ok());
    assert_eq!(store.subscriber_count(), 1);
    assert_eq!(store.token_count(), 1);
    let s = store.subscriber_at(0);
    assert_eq!(s.status, SubscriptionStatus::Pending);
    assert_eq!(s.status.as_str(), "pending");
    assert_eq!(s.subscribed_at, 5);
    assert_eq!(store.token_at(0).subscriber_id, s.id);
    assert_eq!(store.token_at(0).subscription_token, "tokenA");
}

#[test]
fn subscribing_twice_with_the_same_email_is_a_storage_error() {
    let mut store = SubscriptionStore::new();
    let first = subscribe(&mut store, &base_url(), "Ann".to_string(), "ann@x.org".to_string(), 1, "t1", 0);
    assert!(first.is_ok());
    let second = subscribe(&mut store, &base_url(), "Ann".to_string(), "ann@x.org".to_string(), 2, "t2", 0);
    match second {
        Err(SubscriptionError::Storage(m)) => assert_eq!(m, StorageError::DuplicateEmail.message()),
        _ => panic!("expected a storage error"),
    }
    assert_eq!(store.subscriber_count(), 1);
    assert_eq!(store.token_count(), 1);
}

#[test]
fn duplicate_ids_and_tokens_are_refused() {
    let mut store = SubscriptionStore::new();
    assert!(subscribe(&mut store, &base_url(), "Ann".to_string(), "ann@x.org".to_string(), 1, "t1", 0).is_ok());
    let same_id = subscribe(&mut store, &base_url(), "Bob".to_string(), "bob@x.org".to_string(), 1, "t2", 0);
    assert!(matches!(same_id, Err(SubscriptionError::Storage(_))));
    let same_token = subscribe(&mut store, &base_url(), "Bob".to_string(), "bob@x.org".to_string(), 2, "t1", 0);
    assert!(matches!(same_token, Err(SubscriptionError::Storage(_))));
    assert_eq!(store.subscriber_count(), 1);
    assert!(subscribe(&mut store, &base_url(), "Bob".to_string(), "bob@x.org".to_string(), 2, "t2", 0).is_ok());
    assert_eq!(store.subscriber_count(), 2);
}

#[test]
fn fresh_subscription_uses_a_generated_token() {
    let mut store = SubscriptionStore::new();
    let mail = subscribe_with_fresh_token(
        &mut store,
        &base_url(),
        "Ann".to_string(),
        "ann@x.org".to_string(),
        0,
    )
    .ok()
    .unwrap();
    let token = store.token_at(0).subscription_token.clone();
    assert_eq!(token.len(), 32);
    assert!(mail.text_body.contains(&format!("subscription_token={}", token)));
}

#[test]
fn confirmation_link_has_the_expected_shape() {
    let link = confirmation_link(&ApplicationBaseUrl("https://x.io".to_string()), "abc");
    assert_eq!(link, "https://x.io/subscriptions/confirm?subscription_token=abc");
}

#[test]
fn confirmation_email_bodies_hold_the_link() {
    let mail = confirmation_email("a@b.co", "LINK");
    assert_eq!(
        mail.html_body,
        "Welcome to our newsletter!<br />Click <a href=\"LINK\">here</a> to confirm your subscription."
    );
    assert_eq!(mail.text_body, "Welcome to our newsletter!\nVisit LINK to confirm your subscription.");
}

#[test]
fn failed_delivery_is_a_delivery_error() {
    assert!(delivery_outcome(Ok(())).is_ok());
    match delivery_outcome(Err("timeout".to_string())) {
        Err(SubscriptionError::Delivery(m)) => assert_eq!(m, "timeout"),
        _ => panic!("expected a delivery error"),
    }
    assert_eq!(SubscriptionError::Delivery(String::new()).status_code(), 500);
}
