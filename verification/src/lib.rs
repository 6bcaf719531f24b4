//! The decisions behind the interface through which an external block producer drives a bank
//! and the proof of history: which requests are made of the runtime, what is reported of each
//! transaction and each bundle, what follows a commit, and what the clock of the chain is told.
//!
//! The runtime itself is called elsewhere. A function that depends on it takes the events of
//! a run one by one and answers each with the action to take next.
use vstd::prelude::*;

pub mod bank_execution;
pub mod bundle;
pub mod bundle_execution;
pub mod committer;
pub mod features;
pub mod poh_recorder;
pub mod processing;
pub mod request;
pub mod transaction_error;

verus! {

} // verus!
