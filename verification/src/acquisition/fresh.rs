//! Which entries of a page are new, and in which order they are handled.

use crate::date_time::DateTime;
use vstd::prelude::*;

verus! {

/// What a polling loop orders its entries by and bounds its next poll with:
/// an update time or an ascending ID.
pub trait Mark: Copy + Sized {
    /// Position in watermark order.
    spec fn rank(self) -> int;

    /// Whether `self` lies strictly past `other`.
    fn exceeds(&self, other: &Self) -> (b: bool)
        ensures
            b == (self.rank() > other.rank()),
    ;
}

impl Mark for DateTime {
    open spec fn rank(self) -> int {
        self.position()
    }

    fn exceeds(&self, other: &Self) -> (b: bool) {
        self.is_after(other)
    }
}

impl Mark for u64 {
    open spec fn rank(self) -> int {
        self as int
    }

    fn exceeds(&self, other: &Self) -> (b: bool) {
        *self > *other
    }
}

/// Entry `a` of the page is handled before entry `b`: it has the lower mark,
/// or the same mark and stands earlier on the page.
pub open spec fn precedes<K: Mark>(marks: Seq<K>, a: int, b: int) -> bool {
    marks[a].rank() < marks[b].rank() || (marks[a].rank() == marks[b].rank() && a < b)
}

/// `order` lists exactly the entries of the page that lie past the
/// watermark, each once, in the order in which they are handled.
pub open spec fn is_fresh_order<K: Mark>(marks: Seq<K>, watermark: K, order: Seq<usize>) -> bool {
    &&& forall|i: int|
        0 <= i < order.len()
            ==> (#[trigger] order[i]) < marks.len() && marks[order[i] as int].rank()
            > watermark.rank()
    &&& forall|k: usize|
        k < marks.len() && (#[trigger] marks[k as int]).rank() > watermark.rank()
            ==> order.contains(k)
    &&& forall|i: int, j: int|
        0 <= i < j < order.len() ==> precedes(
            marks,
            #[trigger] order[i] as int,
            #[trigger] order[j] as int,
        )
}

/// Pick the entries of a page that lie past the watermark and put them into
/// watermark order, so that handling them in turn can only move the watermark
/// forward. The page may come in any order; the result holds positions on it.
pub fn fresh_order<K: Mark>(marks: &Vec<K>, watermark: &K) -> (order: Vec<usize>)
    ensures
        is_fresh_order(marks@, *watermark, order@),
{
    let mut order: Vec<usize> = Vec::new();
    let mut k: usize = 0;
    while k < marks.len()
        invariant
            k <= marks.len(),
            forall|i: int|
                0 <= i < order.len() ==> (#[trigger] order[i]) < k && marks[order[i] as int].rank()
                    > watermark.rank(),
            forall|m: usize|
                m < k && (#[trigger] marks[m as int]).rank() > watermark.rank()
                    ==> order@.contains(m),
            forall|i: int, j: int|
                0 <= i < j < order.len() ==> precedes(
                    marks@,
                    #[trigger] order[i] as int,
                    #[trigger] order[j] as int,
                ),
        decreases marks.len() - k,
    {
        if marks[k].exceeds(watermark) {
            let mut p: usize = order.len();
            while p > 0 && marks[order[p - 1]].exceeds(&marks[k])
                invariant
                    p <= order.len(),
                    k < marks.len(),
                    forall|i: int| 0 <= i < order.len() ==> (#[trigger] order[i]) < k,
                    forall|i: int|
                        p <= i < order.len() ==> marks[(#[trigger] order[i]) as int].rank()
                            > marks[k as int].rank(),
                decreases p,
            {
                p -= 1;
            }
            let ghost before = order@;
            order.insert(p, k);
            proof {
                assert(order@ == before.insert(p as int, k));
                assert forall|i: int, j: int| 0 <= i < j < order.len() implies precedes(
                    marks@,
                    #[trigger] order[i] as int,
                    #[trigger] order[j] as int,
                ) by {
                    if j < p {
                        assert(order[i] == before[i] && order[j] == before[j]);
                    } else if j == p {
                        assert(order[i] == before[i]);
                        if i < p - 1 {
                            assert(precedes(marks@, before[i] as int, before[p - 1] as int));
                        }
                    } else if i < p {
                        assert(order[i] == before[i] && order[j] == before[j - 1]);
                        if i < j - 1 {
                            assert(precedes(marks@, before[i] as int, before[j - 1] as int));
                        }
                    } else if i == p {
                        assert(order[j] == before[j - 1]);
                    } else {
                        assert(order[i] == before[i - 1] && order[j] == before[j - 1]);
                    }
                }
                assert forall|m: usize|
                    m < k + 1 && (#[trigger] marks[m as int]).rank()
                        > watermark.rank() implies order@.contains(m) by {
                    if m == k {
                        assert(order@[p as int] == k);
                    } else {
                        assert(before.contains(m));
                        let at = choose|at: int| 0 <= at < before.len() && before[at] == m;
                        if at < p {
                            assert(order@[at] == m);
                        } else {
                            assert(order@[at + 1] == m);
                        }
                    }
                }
                assert forall|i: int| 0 <= i < order.len() implies (#[trigger] order[i]) < k + 1
                    && marks[order[i] as int].rank() > watermark.rank() by {
                    if i < p {
                        assert(order[i] == before[i]);
                    } else if i > p {
                        assert(order[i] == before[i - 1]);
                    }
                }
            }
        }
        k += 1;
    }
    order
}

/// Two orders of the same page agree at every place that both have.
proof fn lemma_orders_agree<K: Mark>(
    marks: Seq<K>,
    watermark: K,
    a: Seq<usize>,
    b: Seq<usize>,
    i: int,
)
    requires
        is_fresh_order(marks, watermark, a),
        is_fresh_order(marks, watermark, b),
        0 <= i <= a.len(),
        i <= b.len(),
    ensures
        forall|j: int| 0 <= j < i ==> a[j] == b[j],
    decreases i,
{
    if i > 0 {
        lemma_orders_agree(marks, watermark, a, b, i - 1);
        let at = i - 1;
        let x = a[at];
        let y = b[at];
        if x != y {
            assert(marks[x as int].rank() > watermark.rank());
            assert(marks[y as int].rank() > watermark.rank());
            assert(b.contains(x));
            assert(a.contains(y));
            let in_b = choose|k: int| 0 <= k < b.len() && b[k] == x;
            let in_a = choose|k: int| 0 <= k < a.len() && a[k] == y;
            if in_b < at {
                assert(a[in_b] == b[in_b]);
                assert(precedes(marks, a[in_b] as int, a[at] as int));
            } else if in_a < at {
                assert(a[in_a] == b[in_a]);
                assert(precedes(marks, b[in_a] as int, b[at] as int));
            } else {
                assert(precedes(marks, b[at] as int, b[in_b] as int));
                assert(precedes(marks, a[at] as int, a[in_a] as int));
            }
        }
    }
}

/// There is one order only in which a page is handled: the entries past the
/// watermark, their marks and their places on the page settle it.
pub proof fn lemma_fresh_order_is_unique<K: Mark>(
    marks: Seq<K>,
    watermark: K,
    a: Seq<usize>,
    b: Seq<usize>,
)
    requires
        is_fresh_order(marks, watermark, a),
        is_fresh_order(marks, watermark, b),
    ensures
        a == b,
{
    let shared = if a.len() <= b.len() {
        a.len() as int
    } else {
        b.len() as int
    };
    lemma_orders_agree(marks, watermark, a, b, shared);
    if a.len() < b.len() {
        let extra = b[shared];
        assert(marks[extra as int].rank() > watermark.rank());
        assert(a.contains(extra));
        let k = choose|k: int| 0 <= k < a.len() && a[k] == extra;
        assert(b[k] == a[k]);
        assert(precedes(marks, b[k] as int, b[shared] as int));
    } else if b.len() < a.len() {
        let extra = a[shared];
        assert(marks[extra as int].rank() > watermark.rank());
        assert(b.contains(extra));
        let k = choose|k: int| 0 <= k < b.len() && b[k] == extra;
        assert(a[k] == b[k]);
        assert(precedes(marks, a[k] as int, a[shared] as int));
    }
    assert(a =~= b);
}

/// An entry that does not lie past the watermark is never handled again,
/// whatever else about it has changed since it was first seen.
pub proof fn lemma_stale_entry_is_skipped<K: Mark>(
    marks: Seq<K>,
    watermark: K,
    order: Seq<usize>,
    k: usize,
)
    requires
        is_fresh_order(marks, watermark, order),
        k < marks.len(),
        marks[k as int].rank() <= watermark.rank(),
    ensures
        !order.contains(k),
{
    if order.contains(k) {
        let at = choose|at: int| 0 <= at < order.len() && order[at] == k;
        assert(marks[order[at] as int].rank() > watermark.rank());
    }
}

/// On a page without any entry past the watermark nothing is handled.
pub proof fn lemma_stale_page_is_empty<K: Mark>(marks: Seq<K>, watermark: K, order: Seq<usize>)
    requires
        is_fresh_order(marks, watermark, order),
        forall|k: int| 0 <= k < marks.len() ==> (#[trigger] marks[k]).rank() <= watermark.rank(),
    ensures
        order.len() == 0,
{
    if order.len() > 0 {
        assert(order[0] < marks.len());
        assert(marks[order[0] as int].rank() <= watermark.rank());
    }
}

/// The marks of the handled entries never descend: handling them in turn
/// moves a watermark only forward.
pub proof fn lemma_fresh_order_ascends<K: Mark>(
    marks: Seq<K>,
    watermark: K,
    order: Seq<usize>,
    i: int,
    j: int,
)
    requires
        is_fresh_order(marks, watermark, order),
        0 <= i <= j < order.len(),
    ensures
        marks[order[i] as int].rank() <= marks[order[j] as int].rank(),
        i != j ==> order[i] != order[j],
{
    if i < j {
        assert(precedes(marks, order[i] as int, order[j] as int));
    }
}

} // verus!
