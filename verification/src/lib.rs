//! A shared-canvas crowdfunding ledger.
//!
//! Participants buy pixels on a fixed-size square grid; each purchase pays a
//! fixed price into a common fund and casts one vote for a charity. The
//! accumulated fund is later paid out in full to a chosen charity and reset.
//!
//! This crate holds the ledger state machine itself: the records, the three
//! operations that mutate them, and the invariants that keep funds and vote
//! counts consistent. Account addressing, balance transfers and event
//! delivery belong to the hosting environment and stay outside.

use vstd::prelude::*;

pub mod errors;
pub mod events;
pub mod laws;
pub mod ledger;
pub mod voter;

verus! {

/// Fixed price of one pixel, in the smallest currency unit.
pub const PIXEL_PRICE: u64 = 100;

} // verus!
