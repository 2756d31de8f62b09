//! Verified core of a small contact/registration messenger back end.
//!
//! The crate models the two long-running background workers of the
//! application: a delivery worker that drains queued messages and mails an
//! operator notification plus a submitter receipt for each, and an
//! availability worker that folds a remote calendar feed together with static
//! quiet hours into a single busy/free status with the next transition time.
//! HTTP handling, the database, and the mail transport are outside
//! collaborators; the decisions they feed are made here, with contracts.

pub mod auth;
pub mod availability;
pub mod cache;
pub mod civil;
pub mod delivery;
pub mod feed;
pub mod intervals;
pub mod mail;
pub mod message;
pub mod requests;
pub mod text;
pub mod worker;
