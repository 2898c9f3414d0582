//! The subscribe flow: validate, store a pending subscriber with its token in
//! one step, then hand back the confirmation message to deliver.
use uuid::Uuid;
use vstd::prelude::*;

use crate::domain::{
    NewSubscriber, invalid_email_message, invalid_name_message, is_valid_email, is_valid_name,
};
use crate::store::{
    StorageError, SubscriberRecord, SubscriptionStatus, SubscriptionStore, has_email, has_subscriber_id, has_token,
    storage_error_text, subscriber_is,
};
use crate::token::generate_subscription_token;

verus! {

/// The public address the application is reached at, without a trailing
/// slash.
pub struct ApplicationBaseUrl(pub String);

/// Why a subscription attempt failed.
pub enum SubscriptionError {
    /// The name or the email address is not valid; nothing was stored.
    Invalid(String),
    /// The store refused the subscriber or its token; nothing was stored.
    Storage(String),
    /// The confirmation message could not be delivered; the subscriber stays
    /// stored as pending.
    Delivery(String),
}

impl SubscriptionError {
    /// The HTTP status the error is answered with.
    pub fn status_code(&self) -> (r: u16)
        ensures
            r == (if self is Invalid {
                400u16
            } else {
                500u16
            }),
    {
        match self {
            SubscriptionError::Invalid(_) => 400,
            _ => 500,
        }
    }
}

/// A confirmation message for one new subscriber.
pub struct ConfirmationEmail {
    pub recipient: String,
    pub subject: String,
    pub html_body: String,
    pub text_body: String,
}

pub open spec fn confirmation_link_of(base_url: Seq<char>, token: Seq<char>) -> Seq<char> {
    base_url + "/subscriptions/confirm?subscription_token="@ + token
}

pub open spec fn confirmation_subject() -> Seq<char> {
    "Welcome!"@
}

pub open spec fn confirmation_html(link: Seq<char>) -> Seq<char> {
    "Welcome to our newsletter!<br />Click <a href=\""@ + link
        + "\">here</a> to confirm your subscription."@
}

pub open spec fn confirmation_text(link: Seq<char>) -> Seq<char> {
    "Welcome to our newsletter!\nVisit "@ + link + " to confirm your subscription."@
}

/// `m` is the confirmation message for `recipient` with this link.
pub open spec fn is_confirmation_email(m: ConfirmationEmail, recipient: Seq<char>, link: Seq<char>) -> bool {
    &&& m.recipient@ == recipient
    &&& m.subject@ == confirmation_subject()
    &&& m.html_body@ == confirmation_html(link)
    &&& m.text_body@ == confirmation_text(link)
}

/// The link that confirms the subscription holding `subscription_token`.
pub fn confirmation_link(base_url: &ApplicationBaseUrl, subscription_token: &str) -> (r: String)
    ensures
        r@ == confirmation_link_of(base_url.0@, subscription_token@),
{
    let link = base_url.0.clone().concat("/subscriptions/confirm?subscription_token=");
    link.concat(subscription_token)
}

/// The confirmation message for `recipient`, both renderings holding `link`.
pub fn confirmation_email(recipient: &str, link: &str) -> (r: ConfirmationEmail)
    ensures
        is_confirmation_email(r, recipient@, link@),
{
    let html = String::from_str("Welcome to our newsletter!<br />Click <a href=\"").concat(
        link,
    ).concat("\">here</a> to confirm your subscription.");
    let text = String::from_str("Welcome to our newsletter!\nVisit ").concat(link).concat(
        " to confirm your subscription.",
    );
    ConfirmationEmail {
        recipient: String::from_str(recipient),
        subject: String::from_str("Welcome!"),
        html_body: html,
        text_body: text,
    }
}

/// The error message for a name and email address that do not both pass
/// validation; the name is checked first.
pub open spec fn form_error(name: Seq<char>, email: Seq<char>) -> Seq<char> {
    if !is_valid_name(name) {
        invalid_name_message(name)
    } else {
        invalid_email_message(email)
    }
}

/// What the store refuses a new subscriber for, if anything.
pub open spec fn store_refusal(
    store: SubscriptionStore,
    email: Seq<char>,
    subscriber_id: u128,
    token: Seq<char>,
) -> Option<StorageError> {
    if has_email(store.subscribers(), email) {
        Some(StorageError::DuplicateEmail)
    } else if has_subscriber_id(store.subscribers(), subscriber_id) {
        Some(StorageError::DuplicateSubscriberId)
    } else if has_token(store.tokens(), token) {
        Some(StorageError::DuplicateToken)
    } else {
        None
    }
}

/// `after` is `before` with one more pending subscriber and one more token
/// referring to it.
pub open spec fn added_pending(
    before: SubscriptionStore,
    after: SubscriptionStore,
    name: Seq<char>,
    email: Seq<char>,
    subscriber_id: u128,
    token: Seq<char>,
    subscribed_at: u64,
) -> bool {
    &&& after.subscribers().len() == before.subscribers().len() + 1
    &&& after.subscribers().drop_last() == before.subscribers()
    &&& subscriber_is(
        after.subscribers().last(),
        subscriber_id,
        email,
        name,
        SubscriptionStatus::Pending,
        subscribed_at,
    )
    &&& after.tokens().len() == before.tokens().len() + 1
    &&& after.tokens().drop_last() == before.tokens()
    &&& after.tokens().last().subscription_token@ == token
    &&& after.tokens().last().subscriber_id == subscriber_id
}

/// What `subscribe` does: from store `before` to store `after`, with result `r`.
pub open spec fn subscribe_post(
    before: SubscriptionStore,
    after: SubscriptionStore,
    base_url: Seq<char>,
    name: Seq<char>,
    email: Seq<char>,
    subscriber_id: u128,
    token: Seq<char>,
    subscribed_at: u64,
    r: Result<ConfirmationEmail, SubscriptionError>,
) -> bool {
    &&& after.well_formed()
    &&& if !(is_valid_name(name) && is_valid_email(email)) {
        &&& r matches Err(SubscriptionError::Invalid(m)) && m@ == form_error(name, email)
        &&& after.subscribers() == before.subscribers() && after.tokens() == before.tokens()
    } else if let Some(e) = store_refusal(before, email, subscriber_id, token) {
        &&& r matches Err(SubscriptionError::Storage(m)) && m@ == storage_error_text(e)
        &&& after.subscribers() == before.subscribers() && after.tokens() == before.tokens()
    } else {
        &&& r matches Ok(m) && is_confirmation_email(m, email, confirmation_link_of(base_url, token))
        &&& added_pending(before, after, name, email, subscriber_id, token, subscribed_at)
    }
}

/// Registers a pending subscriber under `subscriber_id` with the token
/// `subscription_token`, and returns the confirmation message to deliver.
pub fn subscribe(
    store: &mut SubscriptionStore,
    base_url: &ApplicationBaseUrl,
    name: String,
    email: String,
    subscriber_id: u128,
    subscription_token: &str,
    subscribed_at: u64,
) -> (r: Result<ConfirmationEmail, SubscriptionError>)
    requires
        old(store).well_formed(),
    ensures
        subscribe_post(
            *old(store),
            *final(store),
            base_url.0@,
            name@,
            email@,
            subscriber_id,
            subscription_token@,
            subscribed_at,
            r,
        ),
{
    let new_subscriber = match NewSubscriber::parse(name, email) {
        Ok(n) => n,
        Err(m) => {
            return Err(SubscriptionError::Invalid(m));
        },
    };
    match store.store_pending_subscription(
        &new_subscriber,
        subscriber_id,
        subscription_token,
        subscribed_at,
    ) {
        Ok(()) => {},
        Err(e) => {
            return Err(SubscriptionError::Storage(e.message()));
        },
    }
    let link = confirmation_link(base_url, subscription_token);
    Ok(confirmation_email(new_subscriber.email.as_ref(), link.as_str()))
}

/// Relies on `Uuid::new_v4` and `Uuid::as_u128`: a random identifier.
#[verifier::external_body]
fn random_subscriber_id() -> (r: u128) {
    Uuid::new_v4().as_u128()
}

/// `subscribe` with a fresh random identifier and a fresh token. Whatever
/// they are, invalid input and a stored email address are refused as by
/// `subscribe`, and a success stores one pending subscriber and one token.
pub fn subscribe_with_fresh_token(
    store: &mut SubscriptionStore,
    base_url: &ApplicationBaseUrl,
    name: String,
    email: String,
    subscribed_at: u64,
) -> (r: Result<ConfirmationEmail, SubscriptionError>)
    requires
        old(store).well_formed(),
    ensures
        exists|subscriber_id: u128, token: Seq<char>|
            #![trigger subscribe_post(*old(store), *final(store), base_url.0@, name@, email@, subscriber_id, token, subscribed_at, r)]
            token.len() == 32 && subscribe_post(
                *old(store),
                *final(store),
                base_url.0@,
                name@,
                email@,
                subscriber_id,
                token,
                subscribed_at,
                r,
            ),
{
    let subscriber_id = random_subscriber_id();
    let token = generate_subscription_token();
    subscribe(store, base_url, name, email, subscriber_id, token.as_str(), subscribed_at)
}

/// The outcome of a subscription whose confirmation message was handed to
/// the sender: a failed delivery becomes `Delivery`.
pub fn delivery_outcome(sent: Result<(), String>) -> (r: Result<(), SubscriptionError>)
    ensures
        sent is Ok ==> r is Ok,
        sent matches Err(e) ==> r matches Err(SubscriptionError::Delivery(m)) && m@ == e@,
{
    match sent {
        Ok(()) => Ok(()),
        Err(e) => Err(SubscriptionError::Delivery(e)),
    }
}

/// Exactly one subscriber in `subs` has this email address.
pub open spec fn exactly_one_with_email(subs: Seq<SubscriberRecord>, email: Seq<char>) -> bool {
    &&& has_email(subs, email)
    &&& forall|i: int, j: int|
        0 <= i < subs.len() && 0 <= j < subs.len() && (#[trigger] subs[i]).email@ == email && (
        #[trigger] subs[j]).email@ == email ==> i == j
}

/// A valid subscription on an empty store succeeds: it stores one pending
/// subscriber and one token referring to it, and its confirmation message
/// carries the confirmation link in both renderings.
pub proof fn lemma_first_subscription(
    before: SubscriptionStore,
    after: SubscriptionStore,
    base_url: Seq<char>,
    name: Seq<char>,
    email: Seq<char>,
    subscriber_id: u128,
    token: Seq<char>,
    subscribed_at: u64,
    r: Result<ConfirmationEmail, SubscriptionError>,
)
    requires
        before.subscribers().len() == 0,
        before.tokens().len() == 0,
        is_valid_name(name),
        is_valid_email(email),
        subscribe_post(before, after, base_url, name, email, subscriber_id, token, subscribed_at, r),
    ensures
        r matches Ok(m) && is_confirmation_email(m, email, confirmation_link_of(base_url, token)),
        after.subscribers().len() == 1,
        subscriber_is(
            after.subscribers()[0],
            subscriber_id,
            email,
            name,
            SubscriptionStatus::Pending,
            subscribed_at,
        ),
        after.tokens().len() == 1,
        after.tokens()[0].subscription_token@ == token,
        after.tokens()[0].subscriber_id == after.subscribers()[0].id,
{
}

/// A second subscription with an email address that subscribed successfully
/// is refused with a storage error, and the store keeps exactly one
/// subscriber with that address.
pub proof fn lemma_duplicate_email_refused(
    s0: SubscriptionStore,
    s1: SubscriptionStore,
    s2: SubscriptionStore,
    base_url: Seq<char>,
    name: Seq<char>,
    email: Seq<char>,
    id1: u128,
    token1: Seq<char>,
    at1: u64,
    r1: Result<ConfirmationEmail, SubscriptionError>,
    id2: u128,
    token2: Seq<char>,
    at2: u64,
    r2: Result<ConfirmationEmail, SubscriptionError>,
)
    requires
        subscribe_post(s0, s1, base_url, name, email, id1, token1, at1, r1),
        r1 is Ok,
        subscribe_post(s1, s2, base_url, name, email, id2, token2, at2, r2),
    ensures
        r2 matches Err(SubscriptionError::Storage(_)),
        s2.subscribers() == s1.subscribers(),
        s2.tokens() == s1.tokens(),
        exactly_one_with_email(s2.subscribers(), email),
{
    let subs = s1.subscribers();
    assert(subs[subs.len() - 1].email@ == email);
    assert(has_email(subs, email));
}

} // verus!
