//! Watches a directory for script files and hands each changed one to a
//! command-line interpreter: the event filter, the dispatch rules, the
//! bounded event bridge, the watch loop's state machine and the argument
//! grammar.
use vstd::prelude::*;

pub mod cli;
pub mod dispatch;
pub mod event;
pub mod monitor;
pub mod queue;

verus! {

/// Largest number of undelivered events the event bridge holds.
pub const BRIDGE_CAPACITY: usize = 100;

} // verus!
