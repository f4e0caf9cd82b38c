//! Properties that hold across several calls of the library.

use vstd::prelude::*;
use crate::call_id::{PluginOpCallId, SENTINEL_CALL_ID};
use crate::plugin::PluginCallResult;
use crate::runtime::{routed, PluginOpCallResult, Route};
use crate::table::lists_exactly;

verus! {

/// `ids[i]` was registered, with waiter `waiters[i]`, as the step from
/// `tables[i]` to `tables[i + 1]`, as `CorrelationTable::register` does on
/// success: the id was not pending, and it is pending afterwards.
pub open spec fn registered_in_turn<W>(
    tables: Seq<Map<PluginOpCallId, W>>,
    ids: Seq<PluginOpCallId>,
    waiters: Seq<W>,
) -> bool {
    &&& tables.len() == ids.len() + 1
    &&& waiters.len() == ids.len()
    &&& forall|i: int| 0 <= i < ids.len() ==> !(#[trigger] tables[i]).contains_key(ids[i])
        && tables[i + 1] == tables[i].insert(ids[i], waiters[i])
}

/// Calls that are in flight together have pairwise distinct ids: when calls
/// are registered one after another and none has been answered yet, no two
/// of them share an id.
pub proof fn lemma_in_flight_ids_distinct<W>(
    tables: Seq<Map<PluginOpCallId, W>>,
    ids: Seq<PluginOpCallId>,
    waiters: Seq<W>,
)
    requires
        registered_in_turn(tables, ids, waiters),
    ensures
        forall|i: int, j: int| 0 <= i < j < ids.len() ==> ids[i] != ids[j],
{
    assert forall|i: int, j: int| 0 <= i < j < ids.len() implies ids[i] != ids[j] by {
        lemma_stays_pending(tables, ids, waiters, i, j);
        assert(!tables[j].contains_key(ids[j]));
    }
}

/// A call registered at step `i` is still pending at every later step `j`.
proof fn lemma_stays_pending<W>(
    tables: Seq<Map<PluginOpCallId, W>>,
    ids: Seq<PluginOpCallId>,
    waiters: Seq<W>,
    i: int,
    j: int,
)
    requires
        registered_in_turn(tables, ids, waiters),
        0 <= i < j <= ids.len(),
    ensures
        tables[j].contains_key(ids[i]),
    decreases j - i,
{
    if j == i + 1 {
        assert(tables[i + 1] == tables[i].insert(ids[i], waiters[i]));
    } else {
        lemma_stays_pending(tables, ids, waiters, i, j - 1);
        assert(tables[j] == tables[j - 1].insert(ids[j - 1], waiters[j - 1]));
    }
}

/// An outcome is delivered exactly once: when the host answers a pending
/// call, its waiter gets that outcome; a second outcome for the same id
/// then reaches nobody and leaves the table as it is.
pub proof fn lemma_delivered_exactly_once<W, P: PluginCallResult>(
    before: Map<PluginOpCallId, W>,
    first: PluginOpCallResult<P>,
    r1: Route<W, P>,
    middle: Map<PluginOpCallId, W>,
    second: PluginOpCallResult<P>,
    r2: Route<W, P>,
    after: Map<PluginOpCallId, W>,
)
    requires
        first.call_id != SENTINEL_CALL_ID,
        before.contains_key(first.call_id),
        second.call_id == first.call_id,
        routed(before, first, r1, middle),
        routed(middle, second, r2, after),
    ensures
        match r1 {
            Route::Deliver(w, res) => w == before[first.call_id]
                && res.into_result_spec() == first.result,
            _ => false,
        },
        r2 == Route::<W, P>::Unmatched(first.call_id),
        after == middle,
        middle == before.remove(first.call_id),
{
}

/// A fatal outcome reaches every pending call once: routing an outcome
/// under the sentinel id hands its result to the waiters of exactly the
/// pending calls, one each, empties the table, and ends the dispatch loop;
/// any outcome routed afterwards reaches nobody.
pub proof fn lemma_fatal_broadcast<W, P: PluginCallResult>(
    before: Map<PluginOpCallId, W>,
    fatal: PluginOpCallResult<P>,
    r1: Route<W, P>,
    middle: Map<PluginOpCallId, W>,
    later: PluginOpCallResult<P>,
    r2: Route<W, P>,
    after: Map<PluginOpCallId, W>,
)
    requires
        fatal.call_id == SENTINEL_CALL_ID,
        later.call_id != SENTINEL_CALL_ID,
        routed(before, fatal, r1, middle),
        routed(middle, later, r2, after),
    ensures
        match r1 {
            Route::Broadcast(waiters, result) => lists_exactly(waiters@, before)
                && result == fatal.result,
            _ => false,
        },
        middle == Map::<PluginOpCallId, W>::empty(),
        r2 == Route::<W, P>::Unmatched(later.call_id),
{
}

} // verus!
