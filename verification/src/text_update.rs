//! Which texts the mesh update pass handles on a run: changed texts, and texts whose font
//! atlases were not ready on an earlier run.
use vstd::prelude::*;
use std::collections::HashSet;

verus! {

broadcast use vstd::std_specs::hash::group_hash_axioms;

/// Entities (by their bit representation) of texts that wait for their font atlases.
pub struct TextUpdateQueue {
    pending: HashSet<u64>,
}

impl View for TextUpdateQueue {
    type V = Set<u64>;

    closed spec fn view(&self) -> Set<u64> {
        self.pending@
    }
}

/// Whether a text is handled on a run, given the waiting texts and whether it changed.
pub open spec fn spec_due(pending: Set<u64>, entity: u64, changed: bool) -> bool {
    changed || pending.contains(entity)
}

/// The waiting texts after `take_due` decided on `entity`.
pub open spec fn spec_after_take(pending: Set<u64>, entity: u64, changed: bool) -> Set<u64> {
    if changed {
        pending
    } else {
        pending.remove(entity)
    }
}

/// The waiting texts after `defer(entity)`.
pub open spec fn spec_after_defer(pending: Set<u64>, entity: u64) -> Set<u64> {
    pending.insert(entity)
}

impl TextUpdateQueue {
    /// An empty queue.
    pub fn new() -> (q: TextUpdateQueue)
        ensures
            q@ == Set::<u64>::empty(),
    {
        TextUpdateQueue { pending: HashSet::new() }
    }

    /// Whether the text of `entity` is handled on this run: it is when it changed, and
    /// otherwise when it was waiting, in which case it leaves the queue. A changed text that
    /// was waiting stays queued.
    pub fn take_due(&mut self, entity: u64, changed: bool) -> (due: bool)
        ensures
            due == spec_due(old(self)@, entity, changed),
            final(self)@ == spec_after_take(old(self)@, entity, changed),
    {
        if changed {
            true
        } else {
            self.pending.remove(&entity)
        }
    }

    /// Queues the text of `entity`, whose font atlases were not all ready, for a later run.
    pub fn defer(&mut self, entity: u64)
        ensures
            final(self)@ == spec_after_defer(old(self)@, entity),
    {
        self.pending.insert(entity);
    }

    /// Whether the text of `entity` waits for its atlases.
    pub fn is_pending(&self, entity: u64) -> (r: bool)
        ensures
            r == self@.contains(entity),
    {
        self.pending.contains(&entity)
    }
}

/// Law: a text deferred on one run is handled on the next run even if it did not change,
/// and then no longer waits.
pub proof fn lemma_deferred_text_is_retried(pending: Set<u64>, entity: u64)
    ensures
        spec_due(spec_after_defer(pending, entity), entity, false),
        !spec_after_take(spec_after_defer(pending, entity), entity, false).contains(entity),
{
}

/// Law: a text that is neither changed nor waiting is skipped and leaves the queue as it was.
pub proof fn lemma_idle_text_is_skipped(pending: Set<u64>, entity: u64)
    requires
        !pending.contains(entity),
    ensures
        !spec_due(pending, entity, false),
        spec_after_take(pending, entity, false) == pending,
{
    assert(pending.remove(entity) =~= pending);
}

/// Whether every section of a text found its font atlas, given the lookup of each section's
/// atlas. Only then is the text laid out; otherwise its meshes are dropped and it is deferred.
pub fn sections_ready<T>(atlases: &Vec<Option<T>>) -> (ready: bool)
    ensures
        ready <==> forall|i: int| 0 <= i < atlases@.len() ==> (#[trigger] atlases@[i]) is Some,
{
    let mut i: usize = 0;
    while i < atlases.len()
        invariant
            i <= atlases@.len(),
            forall|j: int| 0 <= j < i ==> (#[trigger] atlases@[j]) is Some,
        decreases atlases@.len() - i,
    {
        if atlases[i].is_none() {
            return false;
        }
        i = i + 1;
    }
    true
}

} // verus!
