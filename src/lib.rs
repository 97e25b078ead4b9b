//! The orchestration core of an inscription indexer: configuration, the
//! registry of predicates, the decisions of the predicate lifecycle, the block
//! pre-processor's plan for each command, and the catch-up with the chain tip.
use vstd::prelude::*;

pub mod config;
pub mod predicates;
pub mod preprocessor;
pub mod service;

verus! {

} // verus!
