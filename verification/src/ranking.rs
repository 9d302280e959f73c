//! Choosing the first `n` entries of a stable descending order by key.
//!
//! Index `i` ranks before index `j` when its key is larger, or when the keys
//! are equal and `i` comes first: the order that a stable sort by descending
//! key gives. The first `n` indices of that order are the top selection.

use vstd::prelude::*;

verus! {

/// Index `i` comes before index `j` in the stable descending order by key.
pub open spec fn ranks_before(keys: Seq<u32>, i: int, j: int) -> bool {
    keys[i] > keys[j] || (keys[i] == keys[j] && i < j)
}

/// The smaller of two naturals.
pub open spec fn min_nat(a: nat, b: nat) -> nat {
    if a <= b {
        a
    } else {
        b
    }
}

/// `sel` lists, in order, the first `n` indices of `keys` in the stable
/// descending order by key (all of them when there are fewer than `n`): it has
/// that many valid indices, each ranking before the next, and each ranking
/// before every index that it leaves out.
pub open spec fn is_top_selection(keys: Seq<u32>, n: nat, sel: Seq<usize>) -> bool {
    &&& sel.len() == min_nat(n, keys.len())
    &&& forall|p: int| 0 <= p < sel.len() ==> #[trigger] sel[p] < keys.len()
    &&& forall|p: int, q: int|
        0 <= p < q < sel.len() ==> ranks_before(keys, #[trigger] sel[p] as int, #[trigger] sel[q] as int)
    &&& forall|i: usize, p: int|
        i < keys.len() && 0 <= p < sel.len() && !#[trigger] sel.contains(i)
            ==> ranks_before(keys, #[trigger] sel[p] as int, i as int)
}

/// A top selection has `n` entries, or every index when there are fewer
/// than `n`; each entry is a valid index, and no index appears twice.
pub proof fn lemma_top_selection_count(keys: Seq<u32>, n: nat, sel: Seq<usize>)
    requires
        is_top_selection(keys, n, sel),
    ensures
        sel.len() <= n,
        sel.len() <= keys.len(),
        sel.len() == n || sel.len() == keys.len(),
        forall|p: int, q: int| 0 <= p < q < sel.len() ==> sel[p] != sel[q],
        forall|p: int| 0 <= p < sel.len() ==> sel[p] < keys.len(),
{
    assert forall|p: int, q: int| 0 <= p < q < sel.len() implies sel[p] != sel[q] by {
        assert(ranks_before(keys, sel[p] as int, sel[q] as int));
    }
}

/// Two top selections of the same size from the same keys agree up to
/// position `p`.
proof fn lemma_selections_agree_upto(keys: Seq<u32>, n: nat, a: Seq<usize>, b: Seq<usize>, p: int)
    requires
        is_top_selection(keys, n, a),
        is_top_selection(keys, n, b),
        0 <= p < a.len(),
    ensures
        forall|q: int| 0 <= q <= p ==> a[q] == b[q],
    decreases p,
{
    if p > 0 {
        lemma_selections_agree_upto(keys, n, a, b, p - 1);
    }
    let x = a[p];
    let y = b[p];
    if x != y {
        if ranks_before(keys, x as int, y as int) {
            if b.contains(x) {
                let q = choose|q: int| 0 <= q < b.len() && b[q] == x;
                if q > p {
                    assert(ranks_before(keys, b[p] as int, b[q] as int));
                } else if q < p {
                    assert(a[q] == b[q]);
                    assert(ranks_before(keys, a[q] as int, a[p] as int));
                }
            } else {
                assert(!b.contains(x));
                assert(ranks_before(keys, b[p] as int, x as int));
            }
        } else {
            assert(ranks_before(keys, y as int, x as int));
            if a.contains(y) {
                let q = choose|q: int| 0 <= q < a.len() && a[q] == y;
                if q > p {
                    assert(ranks_before(keys, a[p] as int, a[q] as int));
                } else if q < p {
                    assert(a[q] == b[q]);
                    assert(ranks_before(keys, b[q] as int, b[p] as int));
                }
            } else {
                assert(!a.contains(y));
                assert(ranks_before(keys, a[p] as int, y as int));
            }
        }
    }
}

/// There is only one top selection of a given size: the selection is a
/// function of the keys and of `n`.
pub proof fn lemma_top_selection_unique(keys: Seq<u32>, n: nat, a: Seq<usize>, b: Seq<usize>)
    requires
        is_top_selection(keys, n, a),
        is_top_selection(keys, n, b),
    ensures
        a == b,
{
    if a.len() > 0 {
        lemma_selections_agree_upto(keys, n, a, b, a.len() - 1);
    }
    assert(a =~= b);
}

/// Asking for fewer entries gives a prefix of what asking for more gives.
pub proof fn lemma_top_selection_prefix(
    keys: Seq<u32>,
    n: nat,
    m: nat,
    small: Seq<usize>,
    large: Seq<usize>,
)
    requires
        n <= m,
        is_top_selection(keys, n, small),
        is_top_selection(keys, m, large),
    ensures
        small == large.take(small.len() as int),
{
    assert(small.len() <= large.len());
    let prefix = large.take(small.len() as int);
    assert(prefix.len() == small.len());
    assert forall|i: usize, p: int|
        i < keys.len() && 0 <= p < prefix.len() && !#[trigger] prefix.contains(i)
            implies ranks_before(keys, #[trigger] prefix[p] as int, i as int) by {
        assert(large[p] == prefix[p]);
        if large.contains(i) {
            let q = choose|q: int| 0 <= q < large.len() && large[q] == i;
            if q < prefix.len() {
                assert(prefix[q] == i);
                assert(prefix.contains(i));
            } else {
                assert(ranks_before(keys, large[p] as int, large[q] as int));
            }
        } else {
            assert(ranks_before(keys, large[p] as int, i as int));
        }
    }
    assert(is_top_selection(keys, n, prefix));
    lemma_top_selection_unique(keys, n, small, prefix);
}

/// The indices of the `n` largest keys, largest first, equal keys in index
/// order: the first `n` indices of a stable sort by descending key.
pub fn top_indices(keys: &Vec<u32>, n: usize) -> (sel: Vec<usize>)
    ensures
        is_top_selection(keys@, n as nat, sel@),
{
    let len = keys.len();
    let mut order: Vec<usize> = Vec::new();
    let mut k: usize = 0;
    while k < len
        invariant
            len == keys.len(),
            k <= len,
            order.len() == k,
            forall|p: int| 0 <= p < order.len() ==> #[trigger] order[p] < k,
            forall|p: int, q: int|
                0 <= p < q < order.len() ==> ranks_before(keys@, #[trigger] order[p] as int, #[trigger] order[q] as int),
            forall|i: usize| i < k ==> #[trigger] order@.contains(i),
        decreases len - k,
    {
        let key = keys[k];
        let mut pos: usize = 0;
        while pos < order.len() && keys[order[pos]] >= key
            invariant
                len == keys.len(),
                k < len,
                key == keys@[k as int],
                pos <= order.len(),
                forall|p: int| 0 <= p < order.len() ==> #[trigger] order[p] < k,
                forall|p: int| 0 <= p < pos ==> keys@[#[trigger] order[p] as int] >= key,
            decreases order.len() - pos,
        {
            pos = pos + 1;
        }
        let ghost old_order = order@;
        order.insert(pos, k);
        proof {
            assert forall|p: int, q: int| 0 <= p < q < order.len() implies ranks_before(
                keys@,
                #[trigger] order[p] as int,
                #[trigger] order[q] as int,
            ) by {
                if q < pos {
                    assert(order[p] == old_order[p] && order[q] == old_order[q]);
                } else if q == pos {
                    assert(order[p] == old_order[p]);
                } else if p < pos {
                    assert(order[p] == old_order[p] && order[q] == old_order[q - 1]);
                } else if p == pos {
                    assert(order[q] == old_order[q - 1]);
                    if q - 1 > pos {
                        assert(ranks_before(keys@, old_order[pos as int] as int, old_order[q - 1] as int));
                    }
                } else {
                    assert(order[p] == old_order[p - 1] && order[q] == old_order[q - 1]);
                }
            }
            assert forall|i: usize| i < k + 1 implies #[trigger] order@.contains(i) by {
                if i < k {
                    assert(old_order.contains(i));
                    let q = choose|q: int| 0 <= q < old_order.len() && old_order[q] == i;
                    if q < pos {
                        assert(order[q] == i);
                    } else {
                        assert(order[q + 1] == i);
                    }
                } else {
                    assert(order[pos as int] == k);
                }
            }
            assert forall|p: int| 0 <= p < order.len() implies #[trigger] order[p] < k + 1 by {
                if p < pos {
                    assert(order[p] == old_order[p]);
                } else if p > pos {
                    assert(order[p] == old_order[p - 1]);
                }
            }
        }
        k = k + 1;
    }
    let ghost full = order@;
    order.truncate(n);
    proof {
        assert forall|i: usize, p: int|
            i < keys.len() && 0 <= p < order.len() && !#[trigger] order@.contains(i)
                implies ranks_before(keys@, #[trigger] order@[p] as int, i as int) by {
            assert(full.contains(i));
            let q = choose|q: int| 0 <= q < full.len() && full[q] == i;
            if q < order.len() {
                assert(order@[q] == i);
                assert(order@.contains(i));
            } else {
                assert(ranks_before(keys@, full[p] as int, full[q] as int));
            }
            assert(order@[p] == full[p]);
        }
    }
    order
}

} // verus!
