//! Commit-reveal session accounting for a click game.
//!
//! A player opens a session by publishing a commitment to a click count,
//! and closes it by revealing the count. The reveal is accepted only if it
//! matches the commitment and is plausible for the time that has elapsed.

pub mod commitment;
pub mod error;
pub mod instructions;
pub mod laws;
pub mod policy;
pub mod state;
pub mod store;

pub use crate::commitment::{commit, verify, Hash32, Key};
pub use crate::error::ClickerError;
pub use crate::instructions::{
    cancel_session, check_reveal, checked_end_session, end_session, initialize, reveal_session,
    start_session, CancelSession, EndSession, Initialize, StartSession,
};
pub use crate::policy::{evaluate_policy, RATE_LIMIT};
pub use crate::state::{Game, Session};
