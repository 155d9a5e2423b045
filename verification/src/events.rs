//! Notifications a successful operation hands back for external consumers.
//!
//! Events are purely observational: they are returned to the caller, who
//! forwards them to whatever sink it uses (an indexer, a UI). They are not
//! part of the committed state and no invariant depends on them.

use vstd::prelude::*;

verus! {

/// One pixel was bought: who bought it, where, and which charity the
/// purchase voted for.
#[derive(Clone, Copy, Debug, PartialEq, Eq)]
pub struct PixelPurchased {
    /// The buyer's identity, as the 32-byte key the caller supplied.
    pub user: [u8; 32],
    pub x: u16,
    pub y: u16,
    pub charity_id: u8,
}

/// The whole fund balance was paid out to one charity.
#[derive(Clone, Copy, Debug, PartialEq, Eq)]
pub struct FundsDistributed {
    pub charity_id: u8,
    /// The amount transferred: the entire balance at the time of the call,
    /// possibly zero.
    pub amount: u64,
}

} // verus!
