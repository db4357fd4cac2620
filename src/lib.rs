//! Supervision of a CometBFT-compatible consensus engine: the decisions of
//! a supervised run, the settings patched into the engine's configuration
//! and genesis documents, the validator key document and node identifier
//! derived from a consensus key, and the reading of the engine's rollback
//! report.
use vstd::prelude::*;

pub mod command;
pub mod config;
pub mod error;
pub mod genesis;
pub mod keys;
pub mod rollback;
pub mod supervisor;

verus! {

} // verus!
