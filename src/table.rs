//! The correlation table: which call ids are waiting for an outcome, and
//! through which reply conduit each is to be answered.

use std::collections::HashMap;
use vstd::prelude::*;
use vstd::std_specs::iter::IteratorSpec;
use crate::call_id::PluginOpCallId;
use crate::error::{runtime_error, PluginError, PluginResult};

verus! {

broadcast use vstd::std_specs::hash::group_hash_axioms;

/// `s` lists the entries of `m`, each once: its ids are pairwise distinct,
/// each pair is an entry of `m`, and each key of `m` occurs in it.
pub open spec fn lists_exactly<W>(s: Seq<(PluginOpCallId, W)>, m: Map<PluginOpCallId, W>) -> bool {
    &&& forall|i: int, j: int| 0 <= i < j < s.len() ==> #[trigger] s[i].0 != #[trigger] s[j].0
    &&& forall|i: int| 0 <= i < s.len() ==> #[trigger] m.contains_key(s[i].0) && m[s[i].0] == s[i].1
    &&& forall|k: PluginOpCallId| #[trigger] m.contains_key(k) ==> exists|i: int| 0 <= i < s.len() && #[trigger] s[i].0 == k
}

/// A table of pending calls, keyed by call id, each with the conduit through
/// which its waiter is to be answered. Once closed, it takes no new calls.
pub struct CorrelationTable<W> {
    pending: HashMap<PluginOpCallId, W>,
    closed: bool,
}

impl<W> View for CorrelationTable<W> {
    type V = Map<PluginOpCallId, W>;

    closed spec fn view(&self) -> Map<PluginOpCallId, W> {
        self.pending@
    }
}

/// The ids of `m`, each once.
fn ids_of<W>(m: &HashMap<PluginOpCallId, W>) -> (r: Vec<PluginOpCallId>)
    ensures
        r@.to_set() == m@.dom(),
        r@.no_duplicates(),
{
    let mut r: Vec<PluginOpCallId> = Vec::new();
    let ghost all = vstd::std_specs::hash::spec_keys_iter(m).remaining();
    for k in it: m.keys()
        invariant
            it.seq() == all,
            r@.len() == it.index(),
            forall|i: int| 0 <= i < r@.len() ==> r@[i] == *it.seq()[i],
    {
        r.push(*k);
    }
    assert(r@ =~= all.unref());
    r
}

impl<W> CorrelationTable<W> {
    /// Whether the table has been closed.
    pub closed spec fn is_closed(&self) -> bool {
        self.closed
    }

    /// An empty, open table.
    pub fn new() -> (r: Self)
        ensures
            r@ == Map::<PluginOpCallId, W>::empty(),
            !r.is_closed(),
    {
        CorrelationTable { pending: HashMap::new(), closed: false }
    }

    /// Whether a call with id `id` is pending.
    pub fn contains(&self, id: PluginOpCallId) -> (r: bool)
        ensures
            r == self@.contains_key(id),
    {
        self.pending.contains_key(&id)
    }

    /// The number of pending calls.
    pub fn len(&self) -> (r: usize)
        ensures
            r == self@.len(),
    {
        self.pending.len()
    }

    /// Whether the table has been closed.
    pub fn is_shut(&self) -> (r: bool)
        ensures
            r == self.is_closed(),
    {
        self.closed
    }

    /// Registers a pending call `id`, answered through `waiter`. A closed
    /// table, or an id that is already pending, is refused with a
    /// `RuntimeError`, and the table is left as it was.
    pub fn register(&mut self, id: PluginOpCallId, waiter: W) -> (r: PluginResult<()>)
        ensures
            final(self).is_closed() == old(self).is_closed(),
            old(self).is_closed() ==> final(self)@ == old(self)@ && match r {
                Err(e) => runtime_error(e, "runtime shut down"@),
                Ok(_) => false,
            },
            !old(self).is_closed() && old(self)@.contains_key(id) ==> final(self)@ == old(self)@
                && match r {
                Err(e) => runtime_error(e, "call id already registered"@),
                Ok(_) => false,
            },
            !old(self).is_closed() && !old(self)@.contains_key(id) ==> r is Ok
                && final(self)@ == old(self)@.insert(id, waiter),
    {
        if self.closed {
            return Err(PluginError::RuntimeError("runtime shut down".to_string()));
        }
        if self.pending.contains_key(&id) {
            return Err(PluginError::RuntimeError("call id already registered".to_string()));
        }
        self.pending.insert(id, waiter);
        Ok(())
    }

    /// Removes the pending call `id` and hands back its waiter; `None`, with
    /// the table unchanged, when no call `id` is pending.
    pub fn take(&mut self, id: PluginOpCallId) -> (r: Option<W>)
        ensures
            final(self).is_closed() == old(self).is_closed(),
            old(self)@.contains_key(id) ==> r == Some(old(self)@[id])
                && final(self)@ == old(self)@.remove(id),
            !old(self)@.contains_key(id) ==> r is None && final(self)@ == old(self)@,
    {
        self.pending.remove(&id)
    }

    /// Removes every pending call and hands back each with its id: the
    /// entries handed back are exactly the table's before the call.
    pub fn drain(&mut self) -> (r: Vec<(PluginOpCallId, W)>)
        ensures
            final(self).is_closed() == old(self).is_closed(),
            final(self)@ == Map::<PluginOpCallId, W>::empty(),
            lists_exactly(r@, old(self)@),
    {
        let ghost before = self.pending@;
        let ids = ids_of(&self.pending);
        let mut r: Vec<(PluginOpCallId, W)> = Vec::new();
        let mut i: usize = 0;
        while i < ids.len()
            invariant
                i <= ids@.len(),
                ids@.to_set() == before.dom(),
                ids@.no_duplicates(),
                self.closed == old(self).closed,
                before == old(self).pending@,
                r@.len() == i,
                forall|j: int| 0 <= j < i ==> #[trigger] r@[j] == (ids@[j], before[ids@[j]]),
                forall|k: PluginOpCallId| #[trigger] self.pending@.contains_key(k) <==>
                    before.contains_key(k) && forall|j: int| 0 <= j < i ==> #[trigger] ids@[j] != k,
                forall|k: PluginOpCallId| #[trigger] self.pending@.contains_key(k) ==>
                    self.pending@[k] == before[k],
            decreases ids@.len() - i,
        {
            let id = ids[i];
            assert(ids@.to_set().contains(id));
            assert(forall|j: int| 0 <= j < i ==> #[trigger] ids@[j] != id);
            match self.pending.remove(&id) {
                Some(w) => {
                    r.push((id, w));
                }
                None => {}
            }
            i = i + 1;
        }
        proof {
            assert forall|k: PluginOpCallId| !self.pending@.contains_key(k) by {
                if before.contains_key(k) {
                    assert(ids@.to_set().contains(k));
                    let j = choose|j: int| 0 <= j < ids@.len() && ids@[j] == k;
                    assert(ids@[j] == k);
                }
            }
            assert(self.pending@ =~= Map::<PluginOpCallId, W>::empty());
            assert forall|k: PluginOpCallId| #[trigger] before.contains_key(k) implies exists|j: int|
                0 <= j < r@.len() && #[trigger] r@[j].0 == k by {
                assert(ids@.to_set().contains(k));
                let j = choose|j: int| 0 <= j < ids@.len() && ids@[j] == k;
                assert(r@[j].0 == k);
            }
            assert forall|a: int, b: int| 0 <= a < b < r@.len() implies
                #[trigger] r@[a].0 != #[trigger] r@[b].0 by {
                assert(ids@[a] != ids@[b]);
            }
            assert forall|a: int| 0 <= a < r@.len() implies
                #[trigger] before.contains_key(r@[a].0) && before[r@[a].0] == r@[a].1 by {
                assert(ids@.to_set().contains(ids@[a]));
            }
        }
        r
    }

    /// Shuts the table: every pending call is handed back, so that its
    /// waiter can be released, and no call is taken from then on.
    pub fn close(&mut self) -> (r: Vec<(PluginOpCallId, W)>)
        ensures
            final(self).is_closed(),
            final(self)@ == Map::<PluginOpCallId, W>::empty(),
            lists_exactly(r@, old(self)@),
    {
        let r = self.drain();
        self.closed = true;
        r
    }
}

} // verus!
