//! The two tables of the subscription lifecycle, held in memory: subscribers
//! (email unique) and confirmation tokens (token unique, each referring to a
//! stored subscriber).
use vstd::prelude::*;

use crate::domain::NewSubscriber;

verus! {

/// Where a subscriber stands: `Pending` until a valid token is presented,
/// then `Confirmed` for good.
#[derive(Clone, Copy, Debug, PartialEq, Eq, Structural)]
pub enum SubscriptionStatus {
    Pending,
    Confirmed,
}

pub open spec fn status_text(s: SubscriptionStatus) -> Seq<char> {
    match s {
        SubscriptionStatus::Pending => "pending"@,
        SubscriptionStatus::Confirmed => "confirmed"@,
    }
}

impl SubscriptionStatus {
    /// The status as it is written in the subscribers table.
    pub fn as_str(&self) -> (r: &'static str)
        ensures
            r@ == status_text(*self),
    {
        match self {
            SubscriptionStatus::Pending => "pending",
            SubscriptionStatus::Confirmed => "confirmed",
        }
    }
}

/// A row of the subscribers table.
pub struct SubscriberRecord {
    pub id: u128,
    pub email: String,
    pub name: String,
    pub status: SubscriptionStatus,
    pub subscribed_at: u64,
}

/// A row of the confirmation tokens table.
pub struct TokenRecord {
    pub subscription_token: String,
    pub subscriber_id: u128,
}

/// Why the store refused a write.
#[derive(Clone, Copy, Debug, PartialEq, Eq, Structural)]
pub enum StorageError {
    /// A subscriber with this email address is stored already.
    DuplicateEmail,
    /// A subscriber with this identifier is stored already.
    DuplicateSubscriberId,
    /// This token is stored already.
    DuplicateToken,
}

pub open spec fn storage_error_text(e: StorageError) -> Seq<char> {
    match e {
        StorageError::DuplicateEmail => "a subscriber with this email already exists"@,
        StorageError::DuplicateSubscriberId => "a subscriber with this id already exists"@,
        StorageError::DuplicateToken => "this subscription token already exists"@,
    }
}

impl StorageError {
    /// A description of the refusal.
    pub fn message(&self) -> (r: String)
        ensures
            r@ == storage_error_text(*self),
    {
        match self {
            StorageError::DuplicateEmail => String::from_str(
                "a subscriber with this email already exists",
            ),
            StorageError::DuplicateSubscriberId => String::from_str(
                "a subscriber with this id already exists",
            ),
            StorageError::DuplicateToken => String::from_str(
                "this subscription token already exists",
            ),
        }
    }
}

pub open spec fn has_email(subs: Seq<SubscriberRecord>, email: Seq<char>) -> bool {
    exists|i: int| 0 <= i < subs.len() && (#[trigger] subs[i]).email@ == email
}

pub open spec fn has_subscriber_id(subs: Seq<SubscriberRecord>, id: u128) -> bool {
    exists|i: int| 0 <= i < subs.len() && (#[trigger] subs[i]).id == id
}

pub open spec fn has_token(toks: Seq<TokenRecord>, token: Seq<char>) -> bool {
    exists|i: int| 0 <= i < toks.len() && (#[trigger] toks[i]).subscription_token@ == token
}

/// The subscriber a token refers to, if the token is stored.
pub open spec fn token_owner(toks: Seq<TokenRecord>, token: Seq<char>) -> Option<u128> {
    if has_token(toks, token) {
        let i = choose|i: int| 0 <= i < toks.len() && (#[trigger] toks[i]).subscription_token@ == token;
        Some(toks[i].subscriber_id)
    } else {
        None
    }
}

/// The number of stored subscribers with this email address.
pub open spec fn email_count(subs: Seq<SubscriberRecord>, email: Seq<char>) -> nat {
    subs.filter(|r: SubscriberRecord| r.email@ == email).len()
}

/// `r` holds exactly these values.
pub open spec fn subscriber_is(
    r: SubscriberRecord,
    id: u128,
    email: Seq<char>,
    name: Seq<char>,
    status: SubscriptionStatus,
    subscribed_at: u64,
) -> bool {
    r.id == id && r.email@ == email && r.name@ == name && r.status == status && r.subscribed_at
        == subscribed_at
}

/// `a` and `b` hold the same values, but perhaps another status.
pub open spec fn same_but_status(a: SubscriberRecord, b: SubscriberRecord) -> bool {
    a.id == b.id && a.email@ == b.email@ && a.name@ == b.name@ && a.subscribed_at
        == b.subscribed_at
}

/// The subscribers after the one with identifier `id`, if any, is confirmed.
pub open spec fn confirmed_rows(
    before: Seq<SubscriberRecord>,
    after: Seq<SubscriberRecord>,
    id: u128,
) -> bool {
    &&& after.len() == before.len()
    &&& forall|i: int|
        0 <= i < before.len() ==> same_but_status(#[trigger] after[i], before[i]) && after[i].status
            == (if before[i].id == id {
            SubscriptionStatus::Confirmed
        } else {
            before[i].status
        })
}

pub struct SubscriptionStore {
    subscribers: Vec<SubscriberRecord>,
    tokens: Vec<TokenRecord>,
}

impl SubscriptionStore {
    /// The subscribers table, in order of insertion.
    pub closed spec fn subscribers(&self) -> Seq<SubscriberRecord> {
        self.subscribers@
    }

    /// The confirmation tokens table, in order of insertion.
    pub closed spec fn tokens(&self) -> Seq<TokenRecord> {
        self.tokens@
    }

    /// Emails, identifiers and tokens are unique, and every token refers to a
    /// stored subscriber.
    pub open spec fn well_formed(&self) -> bool {
        let subs = self.subscribers();
        let toks = self.tokens();
        &&& forall|i: int, j: int|
            0 <= i < j < subs.len() ==> (#[trigger] subs[i]).email@ != (#[trigger] subs[j]).email@
        &&& forall|i: int, j: int|
            0 <= i < j < subs.len() ==> (#[trigger] subs[i]).id != (#[trigger] subs[j]).id
        &&& forall|i: int, j: int|
            0 <= i < j < toks.len() ==> (#[trigger] toks[i]).subscription_token@ != (#[trigger] toks[
                j]).subscription_token@
        &&& forall|i: int| 0 <= i < toks.len() ==> has_subscriber_id(subs, (#[trigger] toks[i]).subscriber_id)
    }

    /// An empty store.
    pub fn new() -> (r: Self)
        ensures
            r.well_formed(),
            r.subscribers().len() == 0,
            r.tokens().len() == 0,
    {
        SubscriptionStore { subscribers: Vec::new(), tokens: Vec::new() }
    }

    fn email_taken(&self, email: &String) -> (r: bool)
        ensures
            r == has_email(self.subscribers(), email@),
    {
        let mut i: usize = 0;
        while i < self.subscribers.len()
            invariant
                i <= self.subscribers@.len(),
                forall|j: int| 0 <= j < i ==> (#[trigger] self.subscribers@[j]).email@ != email@,
            decreases self.subscribers@.len() - i,
        {
            if self.subscribers[i].email == *email {
                return true;
            }
            i = i + 1;
        }
        false
    }

    fn id_taken(&self, id: u128) -> (r: bool)
        ensures
            r == has_subscriber_id(self.subscribers(), id),
    {
        let mut i: usize = 0;
        while i < self.subscribers.len()
            invariant
                i <= self.subscribers@.len(),
                forall|j: int| 0 <= j < i ==> (#[trigger] self.subscribers@[j]).id != id,
            decreases self.subscribers@.len() - i,
        {
            if self.subscribers[i].id == id {
                return true;
            }
            i = i + 1;
        }
        false
    }

    /// The position of `token` in the tokens table, if it is stored.
    fn token_position(&self, token: &String) -> (r: Option<usize>)
        ensures
            r is None <==> !has_token(self.tokens(), token@),
            r matches Some(i) ==> i < self.tokens().len() && self.tokens()[i as int].subscription_token@
                == token@,
    {
        let mut i: usize = 0;
        while i < self.tokens.len()
            invariant
                i <= self.tokens@.len(),
                forall|j: int| 0 <= j < i ==> (#[trigger] self.tokens@[j]).subscription_token@ != token@,
            decreases self.tokens@.len() - i,
        {
            if self.tokens[i].subscription_token == *token {
                return Some(i);
            }
            i = i + 1;
        }
        None
    }

    /// Stores a pending subscriber and its confirmation token, both or
    /// neither. A stored email, identifier or token is refused, in that
    /// order of checks, and the store is then left as it was.
    pub fn store_pending_subscription(
        &mut self,
        new_subscriber: &NewSubscriber,
        subscriber_id: u128,
        subscription_token: &str,
        subscribed_at: u64,
    ) -> (r: Result<(), StorageError>)
        requires
            old(self).well_formed(),
        ensures
            final(self).well_formed(),
            r == (if has_email(old(self).subscribers(), new_subscriber.email@) {
                Err(StorageError::DuplicateEmail)
            } else if has_subscriber_id(old(self).subscribers(), subscriber_id) {
                Err(StorageError::DuplicateSubscriberId)
            } else if has_token(old(self).tokens(), subscription_token@) {
                Err(StorageError::DuplicateToken)
            } else {
                Ok(())
            }),
            r is Err ==> final(self).subscribers() == old(self).subscribers() && final(self).tokens()
                == old(self).tokens(),
            r is Ok ==> {
                &&& final(self).subscribers().len() == old(self).subscribers().len() + 1
                &&& final(self).subscribers().drop_last() == old(self).subscribers()
                &&& subscriber_is(
                    final(self).subscribers().last(),
                    subscriber_id,
                    new_subscriber.email@,
                    new_subscriber.name@,
                    SubscriptionStatus::Pending,
                    subscribed_at,
                )
                &&& final(self).tokens().len() == old(self).tokens().len() + 1
                &&& final(self).tokens().drop_last() == old(self).tokens()
                &&& final(self).tokens().last().subscription_token@ == subscription_token@
                &&& final(self).tokens().last().subscriber_id == subscriber_id
            },
    {
        let email = String::from_str(new_subscriber.email.as_ref());
        let token = String::from_str(subscription_token);
        if self.email_taken(&email) {
            return Err(StorageError::DuplicateEmail);
        }
        if self.id_taken(subscriber_id) {
            return Err(StorageError::DuplicateSubscriberId);
        }
        if self.token_position(&token).is_some() {
            return Err(StorageError::DuplicateToken);
        }
        let record = SubscriberRecord {
            id: subscriber_id,
            email,
            name: String::from_str(new_subscriber.name.as_ref()),
            status: SubscriptionStatus::Pending,
            subscribed_at,
        };
        let ghost subs0 = self.subscribers@;
        self.subscribers.push(record);
        self.tokens.push(TokenRecord { subscription_token: token, subscriber_id });
        proof {
            let subs = self.subscribers@;
            assert(subs.drop_last() =~= subs0);
            assert(has_subscriber_id(subs, subscriber_id)) by {
                assert(subs[subs.len() - 1].id == subscriber_id);
            }
            assert forall|i: int| 0 <= i < self.tokens@.len() implies has_subscriber_id(
                subs,
                (#[trigger] self.tokens@[i]).subscriber_id,
            ) by {
                if i < self.tokens@.len() - 1 {
                    let k = choose|k: int|
                        0 <= k < subs0.len() && (#[trigger] subs0[k]).id
                            == self.tokens@[i].subscriber_id;
                    assert(subs[k] == subs0[k]);
                }
            }
        }
        proof {
            assert(self.tokens@.drop_last() =~= old(self).tokens@);
        }
        Ok(())
    }

    /// The subscriber that `subscription_token` refers to, if it is stored.
    pub fn subscriber_id_for_token(&self, subscription_token: &str) -> (r: Option<u128>)
        requires
            self.well_formed(),
        ensures
            r == token_owner(self.tokens(), subscription_token@),
    {
        let token = String::from_str(subscription_token);
        match self.token_position(&token) {
            Some(i) => {
                proof {
                    let toks = self.tokens@;
                    let k = choose|k: int|
                        0 <= k < toks.len() && (#[trigger] toks[k]).subscription_token@ == token@;
                    if k != i {
                        if k < i {
                            assert(toks[k].subscription_token@ != toks[i as int].subscription_token@);
                        } else {
                            assert(toks[i as int].subscription_token@ != toks[k].subscription_token@);
                        }
                    }
                }
                Some(self.tokens[i].subscriber_id)
            },
            None => None,
        }
    }

    /// Sets the status of the subscriber with identifier `subscriber_id` to
    /// `Confirmed`; no other row changes, and an unknown identifier changes
    /// nothing.
    pub fn mark_confirmed(&mut self, subscriber_id: u128)
        requires
            old(self).well_formed(),
        ensures
            final(self).well_formed(),
            confirmed_rows(old(self).subscribers(), final(self).subscribers(), subscriber_id),
            final(self).tokens() == old(self).tokens(),
    {
        let ghost subs0 = self.subscribers@;
        let n = self.subscribers.len();
        let mut i: usize = 0;
        while i < n
            invariant
                n == subs0.len(),
                i <= n,
                self.subscribers@.len() == n,
                self.tokens@ == old(self).tokens@,
                forall|j: int|
                    0 <= j < n ==> same_but_status(#[trigger] self.subscribers@[j], subs0[j]),
                forall|j: int|
                    0 <= j < i ==> (#[trigger] self.subscribers@[j]).status == (if subs0[j].id
                        == subscriber_id {
                        SubscriptionStatus::Confirmed
                    } else {
                        subs0[j].status
                    }),
                forall|j: int| i <= j < n ==> (#[trigger] self.subscribers@[j]) == subs0[j],
            decreases n - i,
        {
            if self.subscribers[i].id == subscriber_id {
                self.subscribers[i].status = SubscriptionStatus::Confirmed;
            }
            i = i + 1;
        }
        proof {
            let subs = self.subscribers@;
            assert forall|a: int, b: int| 0 <= a < b < subs.len() implies (#[trigger] subs[a]).email@
                != (#[trigger] subs[b]).email@ && subs[a].id != subs[b].id by {
                assert(subs0[a].email@ != subs0[b].email@);
                assert(subs0[a].id != subs0[b].id);
            }
            assert forall|t: int| 0 <= t < self.tokens@.len() implies has_subscriber_id(
                subs,
                (#[trigger] self.tokens@[t]).subscriber_id,
            ) by {
                assert(has_subscriber_id(old(self).subscribers(), old(self).tokens()[t].subscriber_id));
                let k = choose|k: int|
                    0 <= k < subs0.len() && (#[trigger] subs0[k]).id == self.tokens@[t].subscriber_id;
                assert(same_but_status(subs[k], subs0[k]));
            }
        }
    }

    /// The number of stored subscribers.
    pub fn subscriber_count(&self) -> (r: usize)
        ensures
            r == self.subscribers().len(),
    {
        self.subscribers.len()
    }

    /// The number of stored confirmation tokens.
    pub fn token_count(&self) -> (r: usize)
        ensures
            r == self.tokens().len(),
    {
        self.tokens.len()
    }

    /// The subscriber at position `i` of the subscribers table.
    pub fn subscriber_at(&self, i: usize) -> (r: &SubscriberRecord)
        requires
            i < self.subscribers().len(),
        ensures
            *r == self.subscribers()[i as int],
    {
        &self.subscribers[i]
    }

    /// The token at position `i` of the tokens table.
    pub fn token_at(&self, i: usize) -> (r: &TokenRecord)
        requires
            i < self.tokens().len(),
        ensures
            *r == self.tokens()[i as int],
    {
        &self.tokens[i]
    }
}

} // verus!
