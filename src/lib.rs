//! Job dispatch for repository events: an acceptance rule, a checkout plan,
//! a job environment, a status reporter and the state machine that ties
//! them together so that every created check run is completed once.
use vstd::prelude::*;

pub mod checkout;
pub mod dispatch;
pub mod duration;
pub mod events;
pub mod front;
pub mod github_api;
pub mod github_events;
pub mod job_env;
pub mod pattern;
pub mod report;
pub mod selection;
pub mod text;
pub mod signature;
pub mod ssm;

verus! {

/// Largest number of characters of command output kept in a report.
pub const MAX_TEXT_LENGTH: usize = 30000;

} // verus!
