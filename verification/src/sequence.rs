//! What a filter keeps of a sequence, told by positions.

use vstd::prelude::*;

verus! {

/// `positions` says where in `all` the items of `kept` stood: one position
/// for each kept item, ascending, and among them every position of `all`
/// whose item meets `pred`. So `kept` holds the items of `all` that meet
/// `pred`, each once and in their order, and no other item.
pub open spec fn keeps_in_order<A>(
    all: Seq<A>,
    pred: spec_fn(A) -> bool,
    kept: Seq<A>,
    positions: Seq<int>,
) -> bool {
    &&& positions.len() == kept.len()
    &&& forall|k: int|
        0 <= k < positions.len() ==> 0 <= #[trigger] positions[k] < all.len() && all[positions[k]]
            == kept[k] && pred(kept[k])
    &&& forall|k: int, l: int| 0 <= k < l < positions.len() ==> positions[k] < positions[l]
    &&& forall|i: int| 0 <= i < all.len() && pred(#[trigger] all[i]) ==> positions.contains(i)
}

/// A filter keeps the items that meet it, each once and in their order:
/// the positions at which the kept items stood are returned.
pub proof fn filter_positions<A>(all: Seq<A>, pred: spec_fn(A) -> bool) -> (positions: Seq<int>)
    ensures
        keeps_in_order(all, pred, all.filter(pred), positions),
    decreases all.len(),
{
    reveal(Seq::filter);
    if all.len() == 0 {
        Seq::empty()
    } else {
        let earlier = filter_positions(all.drop_last(), pred);
        let last = all.len() - 1;
        if pred(all.last()) {
            let positions = earlier.push(last);
            assert forall|i: int| 0 <= i < all.len() && pred(#[trigger] all[i]) implies positions.contains(
                i,
            ) by {
                if i < last {
                    assert(all.drop_last()[i] == all[i]);
                    assert(earlier.contains(i));
                    let k = choose|k: int| 0 <= k < earlier.len() && earlier[k] == i;
                    assert(positions[k] == i);
                } else {
                    assert(positions[positions.len() - 1] == i);
                }
            }
            positions
        } else {
            assert forall|i: int| 0 <= i < all.len() && pred(#[trigger] all[i]) implies earlier.contains(
                i,
            ) by {
                assert(all.drop_last()[i] == all[i]);
            }
            earlier
        }
    }
}

} // verus!
