//! What it means to pick rows out of a listing.

use vstd::prelude::*;

verus! {

/// `picked` names, in rising order and each once, exactly the positions
/// below `count` that `keeps` marks.
pub open spec fn is_selection(picked: Seq<usize>, count: nat, keeps: Seq<bool>) -> bool {
    &&& count <= keeps.len() <= usize::MAX
    &&& forall|k: int|
        0 <= k < picked.len() ==> (#[trigger] picked[k]) < count && keeps[picked[k] as int]
    &&& forall|j: int, k: int|
        0 <= j < k < picked.len() ==> (#[trigger] picked[j]) < (#[trigger] picked[k])
    &&& forall|i: int| 0 <= i < count && #[trigger] keeps[i] ==> picked.contains(i as usize)
}

/// A selection over the first `count` rows, with the next row added or
/// passed over as it is marked, is a selection over the first `count + 1`.
pub proof fn selection_grows(
    before: Seq<usize>,
    after: Seq<usize>,
    count: nat,
    keeps: Seq<bool>,
)
    requires
        is_selection(before, count, keeps),
        count < keeps.len(),
        after == if keeps[count as int] {
            before.push(count as usize)
        } else {
            before
        },
    ensures
        is_selection(after, count + 1, keeps),
{
    assert forall|i: int| 0 <= i < count + 1 && #[trigger] keeps[i] implies after.contains(
        i as usize,
    ) by {
        if i < count {
            assert(before.contains(i as usize));
            let k = choose|k: int| 0 <= k < before.len() && before[k] == i as usize;
            assert(after[k] == i as usize);
        } else {
            assert(after[before.len() as int] == count as usize);
        }
    }
}

/// There is only one selection: two sequences that both name, in rising
/// order, the marked positions below `count` are the same sequence.
pub proof fn selection_is_unique(a: Seq<usize>, b: Seq<usize>, count: nat, keeps: Seq<bool>)
    requires
        is_selection(a, count, keeps),
        is_selection(b, count, keeps),
    ensures
        a == b,
    decreases count,
{
    if count == 0 {
        if a.len() > 0 {
            assert(a[0] < count);
        }
        if b.len() > 0 {
            assert(b[0] < count);
        }
        assert(a =~= b);
    } else {
        let top = (count - 1) as nat;
        if keeps[top as int] {
            selection_ends_in_top(a, count, keeps);
            selection_ends_in_top(b, count, keeps);
            selection_is_unique(a.drop_last(), b.drop_last(), top, keeps);
            assert(a =~= a.drop_last().push(a.last()));
            assert(b =~= b.drop_last().push(b.last()));
        } else {
            assert forall|k: int| 0 <= k < a.len() implies (#[trigger] a[k]) < top by {
                assert(keeps[a[k] as int]);
            }
            assert forall|k: int| 0 <= k < b.len() implies (#[trigger] b[k]) < top by {
                assert(keeps[b[k] as int]);
            }
            selection_is_unique(a, b, top, keeps);
        }
    }
}

/// A selection over positions whose last is marked ends in that position,
/// and without it is a selection over the positions before.
proof fn selection_ends_in_top(a: Seq<usize>, count: nat, keeps: Seq<bool>)
    requires
        is_selection(a, count, keeps),
        count > 0,
        keeps[count - 1],
    ensures
        a.len() > 0,
        a.last() == count - 1,
        is_selection(a.drop_last(), (count - 1) as nat, keeps),
{
    let top = (count - 1) as usize;
    assert(a.contains(top));
    let k = choose|k: int| 0 <= k < a.len() && a[k] == top;
    if k < a.len() - 1 {
        assert(a[k] < a[a.len() - 1]);
        assert(a[a.len() - 1] < count);
    }
    let rest = a.drop_last();
    assert forall|j: int| 0 <= j < rest.len() implies (#[trigger] rest[j]) < count - 1
        && keeps[rest[j] as int] by {
        assert(a[j] < a[a.len() - 1]);
        assert(keeps[a[j] as int]);
    }
    assert forall|i: int| 0 <= i < count - 1 && #[trigger] keeps[i] implies rest.contains(
        i as usize,
    ) by {
        assert(a.contains(i as usize));
        let j = choose|j: int| 0 <= j < a.len() && a[j] == i as usize;
        assert(rest[j] == i as usize);
    }
}

} // verus!
