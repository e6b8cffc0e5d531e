//! Registration and confirmation of mailing-list subscribers.
//!
//! The library validates submitted identity data, generates confirmation
//! tokens, builds the confirmation message, keeps subscriber records, and
//! drives the registration and confirmation workflows as state machines whose
//! actions (database statements, mail delivery, responses) are carried out by
//! the surrounding application.
use vstd::prelude::*;

pub mod configuration;
pub mod confirmation;
pub mod domain;
pub mod mail;
pub mod store;
pub mod subscriptions;
pub mod token;

verus! {

} // verus!
