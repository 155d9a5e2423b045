//! Laws of the ledger as a whole: properties that span several operations,
//! stated over the step relations the operations' contracts establish.

use vstd::prelude::*;
use crate::PIXEL_PRICE;
use crate::events::FundsDistributed;
use crate::ledger::{PixelBattle, purchase_step, distribute_step};

verus! {

/// After any run of successful purchases from a fresh ledger, the pixel
/// count equals the number of purchases and the fund balance equals that
/// number times the price: the fund is fully backed by captured payments.
///
/// `ledgers` is the trace of ledger states, starting from the fresh one;
/// each adjacent pair is one successful purchase.
pub proof fn lemma_purchase_run_totals(ledgers: Seq<PixelBattle>)
    requires
        ledgers.len() >= 1,
        ledgers[0].total_pixels == 0,
        ledgers[0].total_funds == 0,
        forall|i: int| 0 <= i < ledgers.len() - 1 ==> purchase_step(
            #[trigger] ledgers[i],
            ledgers[i + 1],
        ),
    ensures
        ledgers.last().total_pixels == ledgers.len() - 1,
        ledgers.last().total_funds == (ledgers.len() - 1) * PIXEL_PRICE,
    decreases ledgers.len(),
{
    if ledgers.len() > 1 {
        let shorter = ledgers.drop_last();
        assert forall|i: int| 0 <= i < shorter.len() - 1 implies purchase_step(
            #[trigger] shorter[i],
            shorter[i + 1],
        ) by {
            assert(purchase_step(ledgers[i], ledgers[i + 1]));
        }
        lemma_purchase_run_totals(shorter);
        assert(purchase_step(ledgers[ledgers.len() - 2], ledgers.last()));
        assert((ledgers.len() - 2) * PIXEL_PRICE + PIXEL_PRICE == (ledgers.len() - 1)
            * PIXEL_PRICE) by (nonlinear_arith);
    }
}

/// What a successful distribution reports and leaves behind, as one
/// relation: the ledger steps as `distribute_step` says and the event
/// carries the whole balance that was on the ledger before the call.
pub open spec fn distribute_outcome(
    pre: PixelBattle,
    post: PixelBattle,
    ev: FundsDistributed,
) -> bool {
    &&& distribute_step(pre, post)
    &&& ev.amount == pre.total_funds
}

/// Distributing twice in a row is idempotent: the second call pays out
/// zero, reports a zero-amount event, and leaves the ledger exactly as the
/// first call left it.
pub proof fn lemma_distribute_twice(
    first: PixelBattle,
    second: PixelBattle,
    third: PixelBattle,
    ev1: FundsDistributed,
    ev2: FundsDistributed,
)
    requires
        distribute_outcome(first, second, ev1),
        distribute_outcome(second, third, ev2),
    ensures
        ev2.amount == 0,
        third == second,
{
}

} // verus!
