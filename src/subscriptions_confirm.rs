//! The confirm flow: resolve a token to its subscriber and mark that
//! subscriber confirmed. Confirming twice is harmless.
use vstd::prelude::*;

use crate::store::{
    SubscriptionStatus, SubscriptionStore, confirmed_rows, has_token, same_but_status, token_owner,
};

verus! {

/// The query of a confirmation link.
pub struct Parameters {
    pub subscription_token: String,
}

/// Why a confirmation failed.
pub enum ConfirmSubscriptionError {
    /// No stored token matches the one presented, whatever its shape.
    IncorrectTokenError,
    /// The store failed while looking up the token or updating the status.
    UnexpectedError(String),
}

pub open spec fn lookup_failure_message(e: Seq<char>) -> Seq<char> {
    "Failed to retrieve subscription id from token: "@ + e
}

pub open spec fn update_failure_message(e: Seq<char>) -> Seq<char> {
    "Failed to confirm subscriber: "@ + e
}

impl ConfirmSubscriptionError {
    /// The HTTP status the error is answered with.
    pub fn status_code(&self) -> (r: u16)
        ensures
            r == (if self is IncorrectTokenError {
                401u16
            } else {
                500u16
            }),
    {
        match self {
            ConfirmSubscriptionError::IncorrectTokenError => 401,
            ConfirmSubscriptionError::UnexpectedError(_) => 500,
        }
    }

    /// A description of the error.
    pub fn message(&self) -> (r: String)
        ensures
            self is IncorrectTokenError ==> r@ == "Invalid token."@,
            self matches ConfirmSubscriptionError::UnexpectedError(m) ==> r@ == m@,
    {
        match self {
            ConfirmSubscriptionError::IncorrectTokenError => String::from_str("Invalid token."),
            ConfirmSubscriptionError::UnexpectedError(m) => m.clone(),
        }
    }
}

/// Decides on the result of looking a token up: a stored token gives its
/// subscriber, an unknown one `IncorrectTokenError`, and a failed lookup
/// `UnexpectedError`.
pub fn subscriber_from_lookup(lookup: Result<Option<u128>, String>) -> (r: Result<
    u128,
    ConfirmSubscriptionError,
>)
    ensures
        lookup matches Ok(Some(id)) ==> r == Ok::<u128, ConfirmSubscriptionError>(id),
        lookup matches Ok(None) ==> r matches Err(ConfirmSubscriptionError::IncorrectTokenError),
        lookup matches Err(e) ==> r matches Err(ConfirmSubscriptionError::UnexpectedError(m))
            && m@ == lookup_failure_message(e@),
{
    match lookup {
        Ok(Some(id)) => Ok(id),
        Ok(None) => Err(ConfirmSubscriptionError::IncorrectTokenError),
        Err(e) => Err(
            ConfirmSubscriptionError::UnexpectedError(
                String::from_str("Failed to retrieve subscription id from token: ").concat(
                    e.as_str(),
                ),
            ),
        ),
    }
}

/// Decides on the result of the status update: a failed update is an
/// `UnexpectedError`, never an `IncorrectTokenError`.
pub fn confirmation_outcome(update: Result<(), String>) -> (r: Result<(), ConfirmSubscriptionError>)
    ensures
        update is Ok ==> r is Ok,
        update matches Err(e) ==> r matches Err(ConfirmSubscriptionError::UnexpectedError(m))
            && m@ == update_failure_message(e@),
{
    match update {
        Ok(()) => Ok(()),
        Err(e) => Err(
            ConfirmSubscriptionError::UnexpectedError(
                String::from_str("Failed to confirm subscriber: ").concat(e.as_str()),
            ),
        ),
    }
}

/// The subscriber that `subscription_token` was issued for, if any.
pub fn get_subscriber_id_from_token(subscription_token: &str, store: &SubscriptionStore) -> (r:
    Option<u128>)
    requires
        store.well_formed(),
    ensures
        r == token_owner(store.tokens(), subscription_token@),
{
    store.subscriber_id_for_token(subscription_token)
}

/// Marks the subscriber with identifier `subscriber_id` confirmed.
pub fn confirm_subscriber(subscriber_id: u128, store: &mut SubscriptionStore)
    requires
        old(store).well_formed(),
    ensures
        final(store).well_formed(),
        confirmed_rows(old(store).subscribers(), final(store).subscribers(), subscriber_id),
        final(store).tokens() == old(store).tokens(),
{
    store.mark_confirmed(subscriber_id)
}

/// What `confirm` does: from store `before` to store `after`, with result `r`.
pub open spec fn confirm_post(
    before: SubscriptionStore,
    after: SubscriptionStore,
    token: Seq<char>,
    r: Result<(), ConfirmSubscriptionError>,
) -> bool {
    &&& after.well_formed()
    &&& after.tokens() == before.tokens()
    &&& match token_owner(before.tokens(), token) {
        None => {
            &&& r matches Err(ConfirmSubscriptionError::IncorrectTokenError)
            &&& after.subscribers() == before.subscribers()
        },
        Some(id) => {
            &&& r is Ok
            &&& confirmed_rows(before.subscribers(), after.subscribers(), id)
        },
    }
}

/// Confirms the subscriber that the presented token was issued for.
pub fn confirm(parameters: &Parameters, store: &mut SubscriptionStore) -> (r: Result<
    (),
    ConfirmSubscriptionError,
>)
    requires
        old(store).well_formed(),
    ensures
        confirm_post(*old(store), *final(store), parameters.subscription_token@, r),
{
    let lookup = get_subscriber_id_from_token(parameters.subscription_token.as_str(), store);
    let id = subscriber_from_lookup(Ok(lookup))?;
    confirm_subscriber(id, store);
    confirmation_outcome(Ok(()))
}

/// A token that was never issued is refused as incorrect, and no
/// subscriber changes.
pub proof fn lemma_unknown_token_refused(
    before: SubscriptionStore,
    after: SubscriptionStore,
    token: Seq<char>,
    r: Result<(), ConfirmSubscriptionError>,
)
    requires
        !has_token(before.tokens(), token),
        confirm_post(before, after, token, r),
    ensures
        r matches Err(ConfirmSubscriptionError::IncorrectTokenError),
        after.subscribers() == before.subscribers(),
{
}

/// A token issued for subscriber `i` confirms that subscriber.
pub proof fn lemma_valid_token_confirms(
    before: SubscriptionStore,
    after: SubscriptionStore,
    token: Seq<char>,
    r: Result<(), ConfirmSubscriptionError>,
    i: int,
    k: int,
)
    requires
        before.well_formed(),
        0 <= i < before.subscribers().len(),
        0 <= k < before.tokens().len(),
        before.tokens()[k].subscription_token@ == token,
        before.tokens()[k].subscriber_id == before.subscribers()[i].id,
        confirm_post(before, after, token, r),
    ensures
        r is Ok,
        after.subscribers()[i].status == SubscriptionStatus::Confirmed,
{
    lemma_token_owner(before, token, k);
}

/// Confirming twice with the same issued token succeeds both times, and the
/// subscriber it was issued for ends confirmed.
pub proof fn lemma_confirm_twice(
    s0: SubscriptionStore,
    s1: SubscriptionStore,
    s2: SubscriptionStore,
    token: Seq<char>,
    r1: Result<(), ConfirmSubscriptionError>,
    r2: Result<(), ConfirmSubscriptionError>,
    i: int,
    k: int,
)
    requires
        s0.well_formed(),
        0 <= i < s0.subscribers().len(),
        0 <= k < s0.tokens().len(),
        s0.tokens()[k].subscription_token@ == token,
        s0.tokens()[k].subscriber_id == s0.subscribers()[i].id,
        confirm_post(s0, s1, token, r1),
        confirm_post(s1, s2, token, r2),
    ensures
        r1 is Ok,
        r2 is Ok,
        s2.subscribers()[i].status == SubscriptionStatus::Confirmed,
{
    lemma_token_owner(s0, token, k);
    assert(same_but_status(s1.subscribers()[i], s0.subscribers()[i]));
    lemma_token_owner(s1, token, k);
}

/// In a well-formed store a stored token belongs to the subscriber its row
/// names.
proof fn lemma_token_owner(store: SubscriptionStore, token: Seq<char>, k: int)
    requires
        store.well_formed(),
        0 <= k < store.tokens().len(),
        store.tokens()[k].subscription_token@ == token,
    ensures
        token_owner(store.tokens(), token) == Some(store.tokens()[k].subscriber_id),
{
    let toks = store.tokens();
    assert(has_token(toks, token));
    let j = choose|j: int| 0 <= j < toks.len() && (#[trigger] toks[j]).subscription_token@ == token;
    if j < k {
        assert(toks[j].subscription_token@ != toks[k].subscription_token@);
    } else if k < j {
        assert(toks[k].subscription_token@ != toks[j].subscription_token@);
    }
}

} // verus!
