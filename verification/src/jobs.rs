//! The order of the pending jobs.
use crate::phase::JobPhase;
use std::collections::BTreeMap;
use vstd::prelude::*;
use vstd::std_specs::cmp::OrdSpec;
use vstd::std_specs::iter::IteratorSpec;

verus! {

/// Whether `id` is the first of the pending jobs, which are ordered by their ids.
pub open spec fn is_front(jobs: Map<u64, JobPhase>, id: u64) -> bool {
    jobs.contains_key(id) && forall|other: u64| #[trigger] jobs.contains_key(other) ==> id <= other
}

/// Whether the first pending job is being processed.
pub open spec fn front_is_processing(jobs: Map<u64, JobPhase>) -> bool {
    exists|id: u64| #[trigger] is_front(jobs, id) && jobs[id] == JobPhase::Processing
}

/// Decides whether the first pending job is being processed.
#[verifier::loop_isolation(false)]
pub fn front_processing(jobs: &BTreeMap<u64, JobPhase>) -> (r: bool)
    ensures
        r == front_is_processing(jobs@),
{
    broadcast use vstd::std_specs::btree::group_btree_axioms;
    broadcast use vstd::laws_cmp::group_laws_cmp;

    let entries = jobs.iter();
    assert(entries.remaining().len() == jobs@.dom().len());
    assert forall|id: u64|
        entries.remaining().len() > 0 && #[trigger] jobs@.contains_key(id) implies
        *entries.remaining()[0].0 <= id by {
        let i = choose|i: int|
            0 <= i < entries.remaining().len() && entries.remaining()[i] == (&id, &jobs@[id]);
        let ids = entries.remaining().map_values(|entry: (&u64, &JobPhase)| *entry.0);
        assert(ids[i] == id);
        if i > 0 {
            assert(ids[0].cmp_spec(&ids[i]) is Less);
        }
    }
    for entry in it: entries
        invariant
            it.index() == 0,
            it.seq() == entries.remaining(),
    {
        let (id, phase) = entry;
        assert(is_front(jobs@, *id));
        return *phase == JobPhase::Processing;
    }
    false
}

} // verus!
