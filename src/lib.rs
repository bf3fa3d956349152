//! A bridge between the group chats of two messaging networks: identity and
//! alias mapping, message normalization, forwarding decisions, the login
//! state machine and membership reconciliation.
use vstd::prelude::*;

pub mod config;
pub mod decimal;
pub mod forward;
pub mod ids;
pub mod login;
pub mod media;
pub mod membership;
pub mod message;

verus! {

} // verus!
