//! Verified data-access client for a Starknet JSON-RPC provider pool.
//!
//! The crate models the protocol logic — endpoint failover, block location by
//! timestamp, event pagination and decoding, timestamp interpolation, and
//! contract activity scanning — as verified state machines over plain values.
//! A thin unverified driver performs the HTTP round trips and feeds the
//! observed responses back in.

pub mod decoder;
pub mod events;
pub mod hexnum;
pub mod interp;
pub mod locator;
pub mod models;
pub mod pool;
pub mod protocol;
pub mod scanner;
pub mod service;
pub mod timefmt;
pub mod transport;

use vstd::prelude::*;

verus! {

/// Width of a field-element address rendered as `0x` plus 64 hex digits.
pub const ADDRESS_CHARS: usize = 66;

} // verus!
