//! The domain of a venue rental platform: users, venues, rental requests,
//! their validation rules and state transitions, and the decisions that the
//! event and web layers make around them.
use vstd::prelude::*;

pub mod api;
pub mod config;
pub mod database;
pub mod error;
pub mod event;
pub mod infra_error;
pub mod queue;
pub mod rental;
pub mod text;
pub mod user;
pub mod venue;
pub mod time;
pub mod validation;

verus! {
} // verus!
