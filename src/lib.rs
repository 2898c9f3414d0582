//! Double opt-in newsletter subscriptions: validated subscriber identities,
//! confirmation tokens, the subscribe and confirm flows, and a store model
//! that enforces the storage rules those flows rely on.
pub mod domain;
pub mod store;
pub mod subscriptions;
pub mod subscriptions_confirm;
pub mod token;
