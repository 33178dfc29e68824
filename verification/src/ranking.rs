//! The order in which authors are presented: most commits first, and among
//! authors with equally many commits the one seen first.

use vstd::prelude::*;
use crate::ledger::{AuthorLedger, Tally};

verus! {

/// Whether the tally at position `a` is presented before the one at `b`:
/// it has more commits, or as many and an earlier position.
pub open spec fn precedes(tallies: Seq<Tally>, a: int, b: int) -> bool {
    tallies[a].commits > tallies[b].commits || (tallies[a].commits == tallies[b].commits && a < b)
}

/// `order` lists every position of `tallies`, and each listed position is
/// presented before all that follow it.
pub open spec fn is_presentation_order(tallies: Seq<Tally>, order: Seq<usize>) -> bool {
    &&& order.len() == tallies.len()
    &&& forall|k: int| 0 <= k < order.len() ==> #[trigger] order[k] < tallies.len()
    &&& forall|i: int| 0 <= i < tallies.len() ==> #[trigger] order.contains(i as usize)
    &&& forall|k: int, l: int|
        0 <= k < l < order.len() ==> precedes(tallies, #[trigger] order[k] as int, #[trigger] order[l] as int)
}

/// There is one presentation order only.
pub proof fn presentation_order_is_unique(tallies: Seq<Tally>, first: Seq<usize>, second: Seq<usize>)
    requires
        is_presentation_order(tallies, first),
        is_presentation_order(tallies, second),
    ensures
        first == second,
{
    assert forall|k: int| 0 <= k < first.len() implies first[k] == second[k] by {
        same_up_to(tallies, first, second, k);
    }
}

proof fn same_up_to(tallies: Seq<Tally>, first: Seq<usize>, second: Seq<usize>, k: int)
    requires
        is_presentation_order(tallies, first),
        is_presentation_order(tallies, second),
        0 <= k < first.len(),
    ensures
        forall|j: int| 0 <= j <= k ==> first[j] == second[j],
    decreases k,
{
    if k > 0 {
        same_up_to(tallies, first, second, k - 1);
    }
    let a = first[k];
    let b = second[k];
    if a != b {
        // Each of the two is listed somewhere in the other order; neither
        // place can be before `k` nor after it.
        assert(second.contains(a as usize));
        let m = choose|m: int| 0 <= m < second.len() && second[m] == a;
        assert(first.contains(b as usize));
        let n = choose|n: int| 0 <= n < first.len() && first[n] == b;
    }
}

/// In presentation order the commit counts never go up.
pub proof fn presentation_order_descends(tallies: Seq<Tally>, order: Seq<usize>, k: int, l: int)
    requires
        is_presentation_order(tallies, order),
        0 <= k <= l < order.len(),
    ensures
        tallies[order[k] as int].commits >= tallies[order[l] as int].commits,
{
}

/// The positions of the ledger's entries in presentation order.
pub fn presentation_order(ledger: &AuthorLedger) -> (order: Vec<usize>)
    ensures
        is_presentation_order(ledger@, order@),
{
    let n: usize = ledger.len();
    let mut order: Vec<usize> = Vec::new();
    let mut i: usize = 0;
    while i < n
        invariant
            n == ledger@.len(),
            i <= n,
            order@.len() == i,
            forall|k: int| 0 <= k < order@.len() ==> #[trigger] order@[k] < i,
            forall|j: int| 0 <= j < i ==> #[trigger] order@.contains(j as usize),
            forall|k: int, l: int|
                0 <= k < l < order@.len() ==> precedes(
                    ledger@,
                    #[trigger] order@[k] as int,
                    #[trigger] order@[l] as int,
                ),
        decreases n - i,
    {
        let commits: usize = ledger.get(i).stats.commits;
        let mut p: usize = 0;
        while p < order.len() && ledger.get(order[p]).stats.commits >= commits
            invariant
                n == ledger@.len(),
                i < n,
                p <= order@.len(),
                order@.len() == i,
                commits == ledger@[i as int].commits,
                forall|k: int| 0 <= k < order@.len() ==> #[trigger] order@[k] < i,
                forall|k: int| 0 <= k < p ==> ledger@[#[trigger] order@[k] as int].commits >= commits,
            decreases order@.len() - p,
        {
            p = p + 1;
        }
        let ghost before = order@;
        order.insert(p, i);
        proof {
            let after = order@;
            assert forall|j: int| 0 <= j < i + 1 implies #[trigger] after.contains(j as usize) by {
                if j == i {
                    assert(after[p as int] == i);
                } else {
                    assert(before.contains(j as usize));
                    let k = choose|k: int| 0 <= k < before.len() && before[k] == j as usize;
                    if k < p {
                        assert(after[k] == j as usize);
                    } else {
                        assert(after[k + 1] == j as usize);
                    }
                }
            }
        }
        i = i + 1;
    }
    order
}

} // verus!
