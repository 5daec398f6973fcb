//! One batch as a whole: what a loop has become once every new entry of a
//! page was handed over in order.

use crate::acquisition::fresh::{is_fresh_order, precedes, Mark};
use crate::acquisition::poll::{next_delay, PollLoop};
use vstd::prelude::*;

verus! {

/// The state after the first `n` entries of `order` were handed over, one
/// after the other.
pub open spec fn after_entries<K: Mark>(
    state: PollLoop<K>,
    marks: Seq<K>,
    order: Seq<usize>,
    n: nat,
) -> PollLoop<K>
    decreases n,
{
    if n == 0 {
        state
    } else {
        after_entries(state, marks, order, (n - 1) as nat).after_published(
            marks[order[n - 1] as int],
        )
    }
}

/// The state after a whole page: every new entry handed over in order, then
/// the batch closed.
pub open spec fn after_page<K: Mark>(state: PollLoop<K>, marks: Seq<K>, order: Seq<usize>)
    -> PollLoop<
    K,
> {
    after_entries(state, marks, order, order.len()).after_batch()
}

/// While the new entries of a page are handed over in order, the watermark
/// stands at the mark of the entry handed over last, and only the watermark
/// and the count of the batch change.
pub proof fn lemma_watermark_follows_the_order<K: Mark>(
    state: PollLoop<K>,
    marks: Seq<K>,
    order: Seq<usize>,
    n: nat,
)
    requires
        is_fresh_order(marks, state.watermark, order),
        n <= order.len(),
        state.published == 0,
        order.len() <= u32::MAX,
    ensures
        after_entries(state, marks, order, n).published == n,
        after_entries(state, marks, order, n).delay_secs == state.delay_secs,
        after_entries(state, marks, order, n).error_count == state.error_count,
        n == 0 ==> after_entries(state, marks, order, n).watermark == state.watermark,
        n > 0 ==> after_entries(state, marks, order, n).watermark.rank() == marks[order[n
            - 1] as int].rank(),
    decreases n,
{
    if n > 0 {
        lemma_watermark_follows_the_order(state, marks, order, (n - 1) as nat);
        assert(marks[order[n - 1] as int].rank() > state.watermark.rank());
        if n > 1 {
            assert(precedes(marks, order[n - 2] as int, order[n - 1] as int));
        }
    }
}

/// After a page the watermark stands at the greatest mark that the page held
/// past the old watermark, and where it was where the page held none. The
/// delay has followed the number of entries handed over.
pub proof fn lemma_page_moves_watermark_to_greatest<K: Mark>(
    state: PollLoop<K>,
    marks: Seq<K>,
    order: Seq<usize>,
)
    requires
        is_fresh_order(marks, state.watermark, order),
        state.published == 0,
        order.len() <= u32::MAX,
        marks.len() <= usize::MAX,
    ensures
        after_page(state, marks, order).watermark.rank() >= state.watermark.rank(),
        forall|k: int|
            0 <= k < marks.len() ==> (#[trigger] marks[k]).rank() <= after_page(
                state,
                marks,
                order,
            ).watermark.rank(),
        order.len() == 0 ==> after_page(state, marks, order).watermark == state.watermark,
        order.len() > 0 ==> after_page(state, marks, order).watermark.rank()
            == marks[order.last() as int].rank(),
        after_page(state, marks, order).delay_secs == next_delay(
            state.delay_secs as int,
            order.len() as int,
        ),
        after_page(state, marks, order).published == 0,
        after_page(state, marks, order).error_count == state.error_count,
{
    lemma_watermark_follows_the_order(state, marks, order, order.len());
    let end = after_page(state, marks, order);
    assert forall|k: int| 0 <= k < marks.len() implies (#[trigger] marks[k]).rank()
        <= end.watermark.rank() by {
        if marks[k].rank() > state.watermark.rank() {
            let place = k as usize;
            assert(marks[place as int].rank() > state.watermark.rank());
            assert(order.contains(place));
            let at = choose|at: int| 0 <= at < order.len() && order[at] == place;
            if at < order.len() - 1 {
                assert(precedes(marks, order[at] as int, order[order.len() - 1] as int));
            }
        }
    }
}

} // verus!
