//! The error taxonomy of the access layer.
//!
//! Engine failures and decode failures propagate to the caller as typed
//! errors; an empty lookup result is distinguished from a malformed one so
//! callers can tell "absent" from "undecodable". Pool exhaustion is never
//! surfaced (callers block instead), and an undeliverable reply is a no-op
//! for the worker, so neither appears here.

use vstd::prelude::*;

verus! {

/// An error returned by the access layer.
#[derive(Debug)]
pub enum DbError {
    /// The embedded engine rejected or failed a dispatched call; the
    /// payload is the engine's own description of the failure.
    EngineCallFailure(String),
    /// A successful engine result could not be converted to the type the
    /// caller asked for.
    DecodeFailure,
    /// A lookup returned no value where one typed value was expected.
    EmptyResult,
}

} // verus!
