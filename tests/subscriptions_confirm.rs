use zero2prod::store::{SubscriptionStatus, SubscriptionStore};
use zero2prod::subscriptions::{subscribe, ApplicationBaseUrl};
use zero2prod::subscriptions_confirm::{
    confirm, confirm_subscriber, confirmation_outcome, get_subscriber_id_from_token,
    subscriber_from_lookup, ConfirmSubscriptionError, Parameters,
};

fn store_with_one_subscriber() -> SubscriptionStore {
    let mut store = SubscriptionStore::new();
    let base_url = ApplicationBaseUrl("http://127.0.0.1".to_string());
    let result = subscribe(
        &mut store,
        &base_url,
        "BoatyMcBoatFace".to_string(),
        "test_user@gmail.com".to_string(),
        9,
        "tok9",
        0,
    );
    assert!(result.is_ok());
    store
}

fn params(token: &str) -> Parameters {
    Parameters { subscription_token: token.to_string() }
}

fn status_of(result: &Result<(), ConfirmSubscriptionError>) -> u16 {
    match result {
        Ok(()) => 200,
        Err(e) => e.status_code(),
    }
}

#[test]
fn the_link_returned_by_subscribe_returns_a_200_if_called() {
    let mut store = store_with_one_subscriber();
    let result = confirm(&params("tok9"), &mut store);
    assert_eq!(status_of(&result), 200);
}

#[test]
fn clicking_on_the_confirmation_link_confirms_a_subscriber() {
    let mut store = store_with_one_subscriber();
    assert!(confirm(&params("tok9"), &mut store).is_ok());
    let saved = store.subscriber_at(0);
    assert_eq!(saved.email, "test_user@gmail.com");
    assert_eq!(saved.name, "BoatyMcBoatFace");
    assert_eq!(saved.status.as_str(), "confirmed");
}

#[test]
fn unmatched_tokens_are_rejected_with_401() {
    let mut store = store_with_one_subscriber();
    let token = 123;
    let result = confirm(&params(&format!("{}", token)), &mut store);
    assert_eq!(status_of(&result), 401);
    assert!(matches!(result, Err(ConfirmSubscriptionError::IncorrectTokenError)));
    assert_eq!(store.subscriber_at(0).status, SubscriptionStatus::Pending);
}

#[test]
fn confirmation_fails_if_there_is_a_fatal_db_error_retrieving_token() {
    let result = subscriber_from_lookup(Err("column does not exist".to_string()));
    let err = result.err().unwrap();
    assert_eq!(err.status_code(), 500);
    assert_eq!(
        err.message(),
        "Failed to retrieve subscription id from token: column does not exist"
    );
}

#[test]
fn confirmation_fails_if_there_is_a_fatal_db_error_upgrading_subscription() {
    let result = confirmation_outcome(Err("column \"status\" does not exist".to_string()));
    assert_eq!(status_of(&result), 500);
    match result {
        Err(ConfirmSubscriptionError::UnexpectedError(m)) => {
            assert_eq!(m, "Failed to confirm subscriber: column \"status\" does not exist")
        }
        _ => panic!("expected an unexpected error"),
    }
}

#[test]
fn confirming_twice_succeeds_both_times() {
    let mut store = store_with_one_subscriber();
    assert!(confirm(&params("tok9"), &mut store).is_ok());
    assert!(confirm(&params("tok9"), &mut store).is_ok());
    assert_eq!(store.subscriber_at(0).status, SubscriptionStatus::Confirmed);
}

#[test]
fn lookup_outcomes_are_told_apart() {
    assert_eq!(subscriber_from_lookup(Ok(Some(5))).ok(), Some(5));
    assert!(matches!(
        subscriber_from_lookup(Ok(None)),
        Err(ConfirmSubscriptionError::IncorrectTokenError)
    ));
    assert_eq!(ConfirmSubscriptionError::IncorrectTokenError.message(), "Invalid token.");
}

#[test]
fn token_lookup_and_direct_confirmation() {
    let mut store = store_with_one_subscriber();
    assert_eq!(get_subscriber_id_from_token("tok9", &store), Some(9));
    assert_eq!(get_subscriber_id_from_token("nope", &store), None);
    confirm_subscriber(9, &mut store);
    assert_eq!(store.subscriber_at(0).status, SubscriptionStatus::Confirmed);
    confirm_subscriber(10, &mut store);
    assert_eq!(store.subscriber_count(), 1);
}

#[test]
fn only_the_tokens_subscriber_is_confirmed() {
    let mut store = store_with_one_subscriber();
    let base_url = ApplicationBaseUrl("http://h".to_string());
    assert!(subscribe(&mut store, &base_url, "Ann".to_string(), "ann@x.org".to_string(), 3, "tok3", 0).is_ok());
    assert!(confirm(&params("tok3"), &mut store).is_ok());
    assert_eq!(store.subscriber_at(0).status, SubscriptionStatus::Pending);
    assert_eq!(store.subscriber_at(1).status, SubscriptionStatus::Confirmed);
}
