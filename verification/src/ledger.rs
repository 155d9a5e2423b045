//! The ledger records and the three operations that mutate them.

use vstd::prelude::*;
use crate::PIXEL_PRICE;
use crate::errors::ErrorCode;
use crate::events::{PixelPurchased, FundsDistributed};
use crate::voter::{User, sum_votes, lemma_sum_votes_update};

verus! {

/// The singleton battle ledger: canvas dimensions, charity count, pixels
/// sold so far and the undistributed fund balance.
#[derive(Clone, Copy, Debug, PartialEq, Eq)]
pub struct PixelBattle {
    pub canvas_size: u16,
    pub charity_count: u8,
    pub total_pixels: u64,
    pub total_funds: u64,
}

/// Creates a fresh battle ledger with the given dimensions and empty
/// counters. Whether a ledger already exists at the target location is the
/// storage layer's concern, not this function's.
pub fn initialize(canvas_size: u16, charity_count: u8) -> (battle: PixelBattle)
    requires
        canvas_size > 0,
        charity_count > 0,
    ensures
        battle.canvas_size == canvas_size,
        battle.charity_count == charity_count,
        battle.total_pixels == 0,
        battle.total_funds == 0,
{
    PixelBattle { canvas_size, charity_count, total_pixels: 0, total_funds: 0 }
}

/// Both coordinates lie on the canvas.
pub open spec fn valid_pixel(battle: PixelBattle, x: u16, y: u16) -> bool {
    x < battle.canvas_size && y < battle.canvas_size
}

/// The charity identifier is one the ledger was configured with.
pub open spec fn valid_charity(battle: PixelBattle, charity_id: u8) -> bool {
    charity_id < battle.charity_count
}

/// Every counter a purchase touches has room for it: nothing would exceed
/// its representable range.
pub open spec fn purchase_fits(battle: PixelBattle, user: User, charity_id: u8) -> bool {
    &&& battle.total_pixels < u64::MAX
    &&& battle.total_funds + PIXEL_PRICE <= u64::MAX
    &&& user.votes < u64::MAX
    &&& user.charity_votes@[charity_id as int] < u64::MAX
}

/// What one successful purchase does to the battle ledger: one more pixel,
/// one more price's worth of funds, dimensions untouched.
pub open spec fn purchase_step(pre: PixelBattle, post: PixelBattle) -> bool {
    &&& post.canvas_size == pre.canvas_size
    &&& post.charity_count == pre.charity_count
    &&& post.total_pixels == pre.total_pixels + 1
    &&& post.total_funds == pre.total_funds + PIXEL_PRICE
}

/// What one successful purchase for `charity_id` does to the buyer's voter
/// record: one more vote in total, one more for that charity.
pub open spec fn vote_step(pre: User, post: User, charity_id: u8) -> bool {
    &&& post.votes == pre.votes + 1
    &&& post.charity_votes@ == pre.charity_votes@.update(
            charity_id as int,
            (pre.charity_votes@[charity_id as int] + 1) as u64,
        )
}

/// What one successful distribution does to the battle ledger: the fund
/// balance is zeroed, everything else is untouched.
pub open spec fn distribute_step(pre: PixelBattle, post: PixelBattle) -> bool {
    &&& post.canvas_size == pre.canvas_size
    &&& post.charity_count == pre.charity_count
    &&& post.total_pixels == pre.total_pixels
    &&& post.total_funds == 0
}

/// Buys the pixel at `(x, y)` for `participant`, casting one vote for
/// `charity_id`.
///
/// Validation is fail-fast, in order: coordinates, then charity, then room
/// in every counter. On success the ledger gains one pixel and one price's
/// worth of funds, the voter record gains one vote in total and one for the
/// chosen charity, and the returned event reports the purchase. On failure
/// neither record changes. The payment itself — moving the price from the
/// participant's balance to the ledger's — is the caller's balance-transfer
/// primitive, committed atomically with this update.
pub fn purchase_pixel(
    battle: &mut PixelBattle,
    user: &mut User,
    participant: [u8; 32],
    x: u16,
    y: u16,
    charity_id: u8,
) -> (r: Result<PixelPurchased, ErrorCode>)
    requires
        old(user).wf(),
        old(user).charity_votes@.len() == old(battle).charity_count as int,
    ensures
        (r is Ok) <==> (valid_pixel(*old(battle), x, y) && valid_charity(*old(battle), charity_id)
            && purchase_fits(*old(battle), *old(user), charity_id)),
        (r == Err::<PixelPurchased, ErrorCode>(ErrorCode::InvalidPixel)) <==> !valid_pixel(
            *old(battle),
            x,
            y,
        ),
        (r == Err::<PixelPurchased, ErrorCode>(ErrorCode::InvalidCharity)) <==> (valid_pixel(
            *old(battle),
            x,
            y,
        ) && !valid_charity(*old(battle), charity_id)),
        (r == Err::<PixelPurchased, ErrorCode>(ErrorCode::ArithmeticOverflow)) <==> (valid_pixel(
            *old(battle),
            x,
            y,
        ) && valid_charity(*old(battle), charity_id) && !purchase_fits(
            *old(battle),
            *old(user),
            charity_id,
        )),
        r is Err ==> *final(battle) == *old(battle) && *final(user) == *old(user),
        r is Ok ==> purchase_step(*old(battle), *final(battle)),
        r is Ok ==> vote_step(*old(user), *final(user), charity_id),
        final(user).wf(),
        r matches Ok(ev) ==> ev == (PixelPurchased { user: participant, x, y, charity_id }),
{
    if !(x < battle.canvas_size && y < battle.canvas_size) {
        return Err(ErrorCode::InvalidPixel);
    }
    if !(charity_id < battle.charity_count) {
        return Err(ErrorCode::InvalidCharity);
    }
    let slot = charity_id as usize;
    let charity_tally = user.charity_votes[slot];
    if battle.total_pixels == u64::MAX || battle.total_funds > u64::MAX - PIXEL_PRICE
        || user.votes == u64::MAX || charity_tally == u64::MAX {
        return Err(ErrorCode::ArithmeticOverflow);
    }
    battle.total_pixels = battle.total_pixels + 1;
    battle.total_funds = battle.total_funds + PIXEL_PRICE;
    user.votes = user.votes + 1;
    user.charity_votes[slot] = charity_tally + 1;
    proof {
        lemma_sum_votes_update(
            old(user).charity_votes@,
            charity_id as int,
            (charity_tally + 1) as u64,
        );
    }
    Ok(PixelPurchased { user: participant, x, y, charity_id })
}

/// Pays the entire current fund balance out to the charity the caller
/// designated and resets the balance to zero.
///
/// An empty pot is not an error: the call succeeds, transfers zero and
/// reports a zero-amount event. Distribution never touches `total_pixels`
/// or any voter record. The transfer of the reported amount to the
/// charity's balance is the caller's balance-transfer primitive, committed
/// atomically with this update.
pub fn distribute_funds(battle: &mut PixelBattle, charity_id: u8) -> (r: Result<
    FundsDistributed,
    ErrorCode,
>)
    ensures
        (r is Ok) <==> valid_charity(*old(battle), charity_id),
        r is Err ==> r == Err::<FundsDistributed, ErrorCode>(ErrorCode::InvalidCharity)
            && *final(battle) == *old(battle),
        r is Ok ==> distribute_step(*old(battle), *final(battle)),
        r matches Ok(ev) ==> ev == (FundsDistributed {
            charity_id,
            amount: old(battle).total_funds,
        }),
{
    if !(charity_id < battle.charity_count) {
        return Err(ErrorCode::InvalidCharity);
    }
    let amount = battle.total_funds;
    battle.total_funds = 0;
    Ok(FundsDistributed { charity_id, amount })
}

} // verus!
