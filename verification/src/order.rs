//! Putting rows in the order of their instants.

use vstd::prelude::*;

verus! {

/// Whether place `a` comes before place `b` where the greatest key comes
/// first and equal keys keep their places' order.
pub open spec fn comes_before(keys: Seq<i64>, a: int, b: int) -> bool {
    keys[a] > keys[b] || (keys[a] == keys[b] && a < b)
}

/// Whether `order` lists every place of `keys` once, the place of the
/// greatest key first and places of equal keys in their own order.
pub open spec fn is_descending_order(keys: Seq<i64>, order: Seq<usize>) -> bool {
    &&& order.len() == keys.len()
    &&& forall|i: int| 0 <= i < order.len() ==> (#[trigger] order[i]) < keys.len()
    &&& forall|i: int, j: int|
        0 <= i < j < order.len() ==> comes_before(keys, #[trigger] order[i] as int, #[trigger] order[j] as int)
}

/// Whether `order` lists the first `upto` places of `keys` in descending
/// order.
spec fn is_partial_order(keys: Seq<i64>, order: Seq<usize>, upto: int) -> bool {
    &&& order.len() == upto
    &&& forall|i: int| 0 <= i < order.len() ==> (#[trigger] order[i]) < upto
    &&& forall|i: int, j: int|
        0 <= i < j < order.len() ==> comes_before(keys, #[trigger] order[i] as int, #[trigger] order[j] as int)
}

/// The places of `keys`, that of the greatest key first; places of equal
/// keys follow each other in their own order.
pub fn descending_order(keys: &Vec<i64>) -> (order: Vec<usize>)
    ensures
        is_descending_order(keys@, order@),
{
    let mut order: Vec<usize> = Vec::new();
    let mut k: usize = 0;
    while k < keys.len()
        invariant
            k <= keys@.len(),
            is_partial_order(keys@, order@, k as int),
        decreases keys@.len() - k,
    {
        let mut at: usize = 0;
        while at < order.len() && keys[order[at]] >= keys[k]
            invariant
                k < keys@.len(),
                is_partial_order(keys@, order@, k as int),
                at <= order@.len(),
                forall|i: int| 0 <= i < at ==> keys@[(#[trigger] order@[i]) as int] >= keys@[k as int],
            decreases order@.len() - at,
        {
            at += 1;
        }
        let ghost before = order@;
        order.insert(at, k);
        proof {
            let after = order@;
            assert forall|i: int, j: int| 0 <= i < j < after.len() implies comes_before(
                keys@,
                #[trigger] after[i] as int,
                #[trigger] after[j] as int,
            ) by {
                let i0 = if i < at {
                    i
                } else {
                    i - 1
                };
                let j0 = if j < at {
                    j
                } else {
                    j - 1
                };
                if i == at {
                    // the new place before an older one: the older key is smaller
                    assert(after[j] == before[j0]);
                    if j0 > at {
                        assert(comes_before(keys@, before[at as int] as int, before[j0] as int));
                    }
                } else if j == at {
                    assert(after[i] == before[i0]);
                } else {
                    assert(after[i] == before[i0]);
                    assert(after[j] == before[j0]);
                }
            }
        }
        k += 1;
    }
    order
}

} // verus!
