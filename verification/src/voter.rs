//! Per-participant voter records.

use vstd::prelude::*;

verus! {

/// Sum of a sequence of vote counters, as an unbounded integer.
pub open spec fn sum_votes(s: Seq<u64>) -> int
    decreases s.len(),
{
    if s.len() == 0 {
        0
    } else {
        sum_votes(s.drop_last()) + s.last()
    }
}

/// Replacing one element moves the sum by the difference between the new
/// and the old element.
pub proof fn lemma_sum_votes_update(s: Seq<u64>, i: int, v: u64)
    requires
        0 <= i < s.len(),
    ensures
        sum_votes(s.update(i, v)) == sum_votes(s) - s[i] + v,
    decreases s.len(),
{
    if i == s.len() - 1 {
        assert(s.update(i, v).drop_last() =~= s.drop_last());
    } else {
        lemma_sum_votes_update(s.drop_last(), i, v);
        assert(s.update(i, v).drop_last() =~= s.drop_last().update(i, v));
    }
}

/// One participant's record: how many pixels they bought in total and how
/// those purchases are spread over the charities. Created once per
/// participant, before their first purchase, and only ever accumulates.
#[derive(Clone, Debug, PartialEq, Eq)]
pub struct User {
    /// Total pixels this participant has bought.
    pub votes: u64,
    /// One counter per charity identifier; entry `c` counts this
    /// participant's votes for charity `c`.
    pub charity_votes: Vec<u64>,
}

impl User {
    /// The record's invariant: the total equals the sum of the per-charity
    /// counters.
    pub open spec fn wf(self) -> bool {
        self.votes == sum_votes(self.charity_votes@)
    }

    /// A fresh record for a ledger configured with `charity_count`
    /// charities: no votes anywhere.
    pub fn new(charity_count: u8) -> (user: User)
        ensures
            user.votes == 0,
            user.charity_votes@.len() == charity_count as int,
            forall|c: int| 0 <= c < charity_count as int ==> user.charity_votes@[c] == 0,
            user.wf(),
    {
        let mut charity_votes: Vec<u64> = Vec::new();
        let mut filled: usize = 0;
        while filled < charity_count as usize
            invariant
                filled <= charity_count as usize,
                charity_votes@.len() == filled as int,
                forall|c: int| 0 <= c < filled as int ==> charity_votes@[c] == 0,
                sum_votes(charity_votes@) == 0,
            decreases charity_count as usize - filled,
        {
            let ghost before = charity_votes@;
            charity_votes.push(0);
            proof {
                assert(charity_votes@.drop_last() =~= before);
            }
            filled = filled + 1;
        }
        User { votes: 0, charity_votes }
    }
}

} // verus!
