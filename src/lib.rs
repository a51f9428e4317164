//! The signal-driven thread release protocol: a controller learns a parked
//! worker's thread handle, signals that thread, and the signal handler
//! releases the worker through one of four wait primitives.
//!
//! `identity` holds the one-shot publication of the worker's handle,
//! `release` the release condition and the moves that change it, and
//! `controller` the controller's decisions from event to next action.
use vstd::prelude::*;

pub mod controller;
pub mod identity;
pub mod release;

verus! {

} // verus!
