//! The order in which the primitives of a page are drawn.

use vstd::prelude::*;
use vstd::set_lib::{lemma_int_range, lemma_subset_equality, set_int_range};
use itertools::Itertools;
use std::cmp::Ordering;
use crate::items::{item_views, PlotItem, PlotItemView};

verus! {

/// Whether the primitive at position `a` is drawn before the one at
/// position `b`: it has the lower z-order, or the same and comes first.
pub open spec fn drawn_before(zs: Seq<usize>, a: int, b: int) -> bool {
    zs[a] < zs[b] || (zs[a] == zs[b] && a < b)
}

/// Whether `order` lists the positions of `zs` in drawing order: as many
/// positions as there are z-orders, and each drawn before all that follow.
pub open spec fn is_draw_order(zs: Seq<usize>, order: Seq<usize>) -> bool {
    &&& order.len() == zs.len()
    &&& forall|i: int| 0 <= i < order.len() ==> (#[trigger] order[i]) < zs.len()
    &&& forall|i: int, j: int|
        0 <= i < j < order.len() ==> drawn_before(zs, #[trigger] order[i] as int, #[trigger] order[j] as int)
}

/// The positions of `zs` in drawing order.
pub open spec fn draw_order(zs: Seq<usize>) -> Seq<usize> {
    choose|order: Seq<usize>| is_draw_order(zs, order)
}

/// The z-orders of a page, by position.
pub open spec fn z_orders(items: Seq<PlotItemView>) -> Seq<usize> {
    items.map_values(|item: PlotItemView| item.z())
}

/// A drawing order draws every primitive: each position occurs in it.
pub proof fn lemma_draw_order_complete(zs: Seq<usize>, order: Seq<usize>, position: int)
    requires
        is_draw_order(zs, order),
        0 <= position < zs.len(),
    ensures
        exists|i: int| 0 <= i < order.len() && #[trigger] order[i] == position,
{
    let n = zs.len() as int;
    let ints = order.map_values(|p: usize| p as int);
    assert forall|i: int, j: int| 0 <= i < ints.len() && 0 <= j < ints.len() && i != j implies ints[i]
        != ints[j] by {
        if i < j {
            assert(drawn_before(zs, order[i] as int, order[j] as int));
        } else {
            assert(drawn_before(zs, order[j] as int, order[i] as int));
        }
    }
    ints.unique_seq_to_set();
    lemma_int_range(0, n);
    assert(ints.to_set().subset_of(set_int_range(0, n))) by {
        assert forall|v: int| ints.to_set().contains(v) implies set_int_range(0, n).contains(v) by {
            let i = choose|i: int| 0 <= i < ints.len() && ints[i] == v;
            assert(order[i] < zs.len());
        }
    }
    vstd::seq_lib::seq_to_set_is_finite(ints);
    lemma_subset_equality(ints.to_set(), set_int_range(0, n));
    assert(set_int_range(0, n).contains(position));
    assert(ints.to_set().contains(position));
    let i = choose|i: int| 0 <= i < ints.len() && ints[i] == position;
    assert(order[i] == position);
}

/// A drawing order draws no primitive twice.
pub proof fn lemma_draw_order_distinct(zs: Seq<usize>, order: Seq<usize>, i: int, j: int)
    requires
        is_draw_order(zs, order),
        0 <= i < order.len(),
        0 <= j < order.len(),
        i != j,
    ensures
        order[i] != order[j],
{
    if i < j {
        assert(drawn_before(zs, order[i] as int, order[j] as int));
    } else {
        assert(drawn_before(zs, order[j] as int, order[i] as int));
    }
}

/// The z-orders of a page determine its drawing order.
pub proof fn lemma_draw_order_unique(zs: Seq<usize>, a: Seq<usize>, b: Seq<usize>)
    requires
        is_draw_order(zs, a),
        is_draw_order(zs, b),
    ensures
        a == b,
{
    assert forall|k: int| 0 <= k < a.len() implies a[k] == b[k] by {
        lemma_draw_order_prefix(zs, a, b, k);
    }
    assert(a =~= b);
}

/// Two drawing orders of the same page agree at position `k`.
proof fn lemma_draw_order_prefix(zs: Seq<usize>, a: Seq<usize>, b: Seq<usize>, k: int)
    requires
        is_draw_order(zs, a),
        is_draw_order(zs, b),
        0 <= k < a.len(),
    ensures
        a[k] == b[k],
    decreases k,
{
    assert forall|m: int| 0 <= m < k implies a[m] == b[m] by {
        lemma_draw_order_prefix(zs, a, b, m);
    }
    if a[k] != b[k] {
        lemma_draw_order_complete(zs, b, a[k] as int);
        let m = choose|m: int| 0 <= m < b.len() && #[trigger] b[m] == a[k] as int;
        lemma_draw_order_complete(zs, a, b[k] as int);
        let l = choose|l: int| 0 <= l < a.len() && #[trigger] a[l] == b[k] as int;
        if m < k {
            lemma_draw_order_distinct(zs, a, m, k);
        }
        if l < k {
            lemma_draw_order_distinct(zs, b, l, k);
        }
        assert(k < m && k < l);
        assert(drawn_before(zs, b[k] as int, b[m] as int));
        assert(drawn_before(zs, a[k] as int, a[l] as int));
    }
}

/// The first position at or after `k` of `order` whose primitive has a
/// z-order above `z`; the length of `order` where there is none.
spec fn first_above(zs: Seq<usize>, order: Seq<usize>, z: usize, k: int) -> int
    decreases order.len() - k,
{
    if k >= order.len() {
        order.len() as int
    } else if zs[order[k] as int] > z {
        k
    } else {
        first_above(zs, order, z, k + 1)
    }
}

/// `first_above` finds the first position above `z` from `k` on.
proof fn lemma_first_above(zs: Seq<usize>, order: Seq<usize>, z: usize, k: int)
    requires
        0 <= k <= order.len(),
    ensures
        k <= first_above(zs, order, z, k) <= order.len(),
        forall|i: int| k <= i < first_above(zs, order, z, k) ==> zs[#[trigger] order[i] as int] <= z,
        first_above(zs, order, z, k) < order.len() ==> zs[order[first_above(zs, order, z, k)] as int] > z,
    decreases order.len() - k,
{
    if k < order.len() && zs[order[k] as int] <= z {
        lemma_first_above(zs, order, z, k + 1);
    }
}

/// A drawing order of `zs`, put together primitive by primitive: the last
/// primitive goes behind all that have its z-order or a lower one.
spec fn built_order(zs: Seq<usize>) -> Seq<usize>
    decreases zs.len(),
{
    if zs.len() == 0 {
        Seq::empty()
    } else {
        let before = built_order(zs.drop_last());
        before.insert(first_above(zs, before, zs.last(), 0), (zs.len() - 1) as usize)
    }
}

/// The order put together primitive by primitive is a drawing order.
proof fn lemma_built_order(zs: Seq<usize>)
    requires
        zs.len() <= usize::MAX,
    ensures
        is_draw_order(zs, built_order(zs)),
    decreases zs.len(),
{
    if zs.len() > 0 {
        let init = zs.drop_last();
        let before = built_order(init);
        let z = zs.last();
        let last = (zs.len() - 1) as usize;
        let p = first_above(zs, before, z, 0);
        let order = built_order(zs);
        lemma_built_order(init);
        lemma_first_above(zs, before, z, 0);
        assert(order == before.insert(p, last));
        assert forall|i: int| 0 <= i < order.len() implies (#[trigger] order[i]) < zs.len() by {
            if i < p {
                assert(order[i] == before[i]);
            } else if i > p {
                assert(order[i] == before[i - 1]);
            }
        }
        assert forall|i: int, j: int| 0 <= i < j < order.len() implies drawn_before(
            zs,
            #[trigger] order[i] as int,
            #[trigger] order[j] as int,
        ) by {
            let a = if i < p {
                i
            } else {
                i - 1
            };
            let b = if j < p {
                j
            } else {
                j - 1
            };
            if i != p && j != p {
                assert(order[i] == before[a] && order[j] == before[b]);
                assert(drawn_before(init, before[a] as int, before[b] as int));
                assert(init[before[a] as int] == zs[before[a] as int]);
                assert(init[before[b] as int] == zs[before[b] as int]);
            } else if j == p {
                assert(order[i] == before[i]);
                assert(zs[before[i] as int] <= z);
                assert(before[i] < init.len());
            } else {
                assert(order[j] == before[j - 1]);
                if p < j - 1 {
                    assert(drawn_before(init, before[p] as int, before[j - 1] as int));
                    assert(init[before[p] as int] == zs[before[p] as int]);
                    assert(init[before[j - 1] as int] == zs[before[j - 1] as int]);
                }
                assert(zs[before[j - 1] as int] > z);
            }
        }
    }
}

/// Every page has a drawing order, and `draw_order` is it.
pub proof fn lemma_draw_order_exists(zs: Seq<usize>)
    requires
        zs.len() <= usize::MAX,
    ensures
        is_draw_order(zs, draw_order(zs)),
{
    lemma_built_order(zs);
}

/// Primitives with the same z-order are drawn in the order in which they
/// stand on the page, and a primitive with a lower z-order is drawn before
/// one with a higher.
pub proof fn lemma_draw_order_stable(zs: Seq<usize>, order: Seq<usize>, i: int, j: int)
    requires
        is_draw_order(zs, order),
        0 <= i < j < order.len(),
    ensures
        zs[order[i] as int] <= zs[order[j] as int],
        zs[order[i] as int] == zs[order[j] as int] ==> order[i] < order[j],
{
    assert(drawn_before(zs, order[i] as int, order[j] as int));
}

/// How two z-orders compare.
pub open spec fn z_ordering(a: usize, b: usize) -> Ordering {
    if a < b {
        Ordering::Less
    } else if a == b {
        Ordering::Equal
    } else {
        Ordering::Greater
    }
}

/// How two z-orders compare.
pub fn compare_z(a: usize, b: usize) -> (o: Ordering)
    ensures
        o == z_ordering(a, b),
{
    if a < b {
        Ordering::Less
    } else if a == b {
        Ordering::Equal
    } else {
        Ordering::Greater
    }
}

/// `itertools::Itertools::sorted_by` on the positions of `zs`, each with its
/// z-order, compared by the z-orders with [`compare_z`]. The method collects
/// what it is given and sorts it with the stable `slice::sort_by`. Taken on
/// trust: what comes back holds every position once, ascending by z-order,
/// and positions with equal z-orders in the order in which they went in,
/// which is ascending.
#[verifier::external_body]
fn sorted_by_z(zs: &Vec<usize>) -> (order: Vec<usize>)
    ensures
        is_draw_order(zs@, order@),
{
    zs.iter().enumerate().sorted_by(|a, b| compare_z(*a.1, *b.1)).map(|p| p.0).collect()
}

/// The z-orders of `items`, by position.
pub fn z_values(items: &Vec<PlotItem>) -> (zs: Vec<usize>)
    ensures
        zs@ == z_orders(item_views(items@)),
{
    let mut zs: Vec<usize> = Vec::new();
    let mut i: usize = 0;
    while i < items.len()
        invariant
            i <= items@.len(),
            zs@ == z_orders(item_views(items@.take(i as int))),
        decreases items@.len() - i,
    {
        zs.push(items[i].z());
        proof {
            assert(items@.take(i + 1) =~= items@.take(i as int).push(items@[i as int]));
            assert(zs@ =~= z_orders(item_views(items@.take(i + 1))));
        }
        i += 1;
    }
    proof {
        assert(items@.take(i as int) =~= items@);
    }
    zs
}

/// The positions of `items` in the order in which they are drawn: ascending
/// by z-order, primitives with the same z-order in the order in which they
/// stand in `items`.
pub fn sorted_positions(items: &Vec<PlotItem>) -> (order: Vec<usize>)
    ensures
        is_draw_order(z_orders(item_views(items@)), order@),
        order@ == draw_order(z_orders(item_views(items@))),
{
    let zs = z_values(items);
    let order = sorted_by_z(&zs);
    proof {
        lemma_draw_order_unique(zs@, order@, draw_order(zs@));
    }
    order
}

} // verus!
