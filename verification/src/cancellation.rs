//! Cooperative cancellation: one flag per running job, set on request and
//! polled by the job's monitor.

use std::collections::HashMap;
use vstd::prelude::*;

verus! {

/// What a monitor holds to poll the flag of its job.
#[derive(Debug, Clone, Copy, PartialEq, Eq, Structural)]
pub struct CancelHandle {
    pub media_idx: i32,
}

/// The cancellation flags of the jobs whose monitors are at work.
pub struct CancellationRegistry {
    flags: HashMap<i32, bool>,
}

impl View for CancellationRegistry {
    type V = Map<i32, bool>;

    /// For each registered id, whether cancellation was requested.
    closed spec fn view(&self) -> Map<i32, bool> {
        self.flags@
    }
}

/// The flags `m` with every one of them set.
pub open spec fn all_requested(m: Map<i32, bool>) -> Map<i32, bool> {
    Map::new(|id: i32| m.contains_key(id), |id: i32| true)
}

impl CancellationRegistry {
    /// A registry without flags.
    pub fn new() -> (r: Self)
        ensures
            r@ == Map::<i32, bool>::empty(),
    {
        CancellationRegistry { flags: HashMap::new() }
    }

    /// Creates the flag of `media_idx`, unset; a flag already there is
    /// replaced. Called when a monitor begins its work.
    pub fn register(&mut self, media_idx: i32) -> (h: CancelHandle)
        ensures
            final(self)@ == old(self)@.insert(media_idx, false),
            h.media_idx == media_idx,
    {
        broadcast use vstd::std_specs::hash::group_hash_axioms;

        self.flags.insert(media_idx, false);
        CancelHandle { media_idx }
    }

    /// Removes the flag of `media_idx`. Called when its monitor reaches a
    /// terminal outcome.
    pub fn unregister(&mut self, media_idx: i32)
        ensures
            final(self)@ == old(self)@.remove(media_idx),
    {
        broadcast use vstd::std_specs::hash::group_hash_axioms;

        self.flags.remove(&media_idx);
    }

    /// Sets the flag of `media_idx` if there is one. Says whether there was.
    pub fn request_cancel(&mut self, media_idx: i32) -> (found: bool)
        ensures
            found == old(self)@.contains_key(media_idx),
            found ==> final(self)@ == old(self)@.insert(media_idx, true),
            !found ==> final(self)@ == old(self)@,
    {
        broadcast use vstd::std_specs::hash::group_hash_axioms;

        if self.flags.contains_key(&media_idx) {
            self.flags.insert(media_idx, true);
            true
        } else {
            false
        }
    }

    /// Sets every flag and returns the ids that have one, each once, in no
    /// particular order.
    pub fn request_cancel_all(&mut self) -> (ids: Vec<i32>)
        ensures
            final(self)@ == all_requested(old(self)@),
            ids@.to_set() == old(self)@.dom(),
            ids@.no_duplicates(),
    {
        broadcast use vstd::std_specs::hash::group_hash_axioms;

        let mut ids: Vec<i32> = Vec::new();
        for k in it: self.flags.keys()
            invariant
                ids@ == it.seq().unref().take(it.index() as int),
                it.seq().unref().take(it.seq().len() as int) == it.seq().unref(),
                it.seq().unref().to_set() == self.flags@.dom(),
                it.seq().unref().no_duplicates(),
        {
            ids.push(*k);
        }
        let mut i: usize = 0;
        while i < ids.len()
            invariant
                i <= ids.len(),
                ids@.to_set() == old(self)@.dom(),
                self.flags@.dom() == old(self)@.dom(),
                forall|j: int| 0 <= j < i ==> self.flags@[#[trigger] ids@[j]] == true,
                forall|id: i32|
                    self.flags@.contains_key(id) && !ids@.take(i as int).contains(id)
                        ==> self.flags@[id] == old(self)@[id],
            decreases ids.len() - i,
        {
            self.flags.insert(ids[i], true);
            proof {
                assert forall|id: i32|
                    self.flags@.contains_key(id) && !ids@.take(i + 1).contains(
                        id,
                    ) implies self.flags@[id] == old(self)@[id] by {
                    assert(ids@.take(i + 1)[i as int] == ids@[i as int]);
                }
            }
            i = i + 1;
        }
        ids
    }

    /// Whether `media_idx` has a flag.
    pub fn is_registered(&self, media_idx: i32) -> (r: bool)
        ensures
            r == self@.contains_key(media_idx),
    {
        broadcast use vstd::std_specs::hash::group_hash_axioms;

        self.flags.contains_key(&media_idx)
    }

    /// Whether cancellation was requested for the job behind `handle`. A job
    /// without a flag counts as not cancelled.
    pub fn is_cancelled(&self, handle: &CancelHandle) -> (r: bool)
        ensures
            r == (self@.contains_key(handle.media_idx) && self@[handle.media_idx]),
    {
        broadcast use vstd::std_specs::hash::group_hash_axioms;

        match self.flags.get(&handle.media_idx) {
            Some(flag) => *flag,
            None => false,
        }
    }
}

/// A flag, once set, stays set until its job is unregistered, and a fresh
/// registration starts unset.
pub proof fn law_request_holds_until_unregistered(flags: Map<i32, bool>, id: i32, other: i32)
    requires
        flags.contains_key(id),
        other != id,
    ensures
        flags.insert(id, true)[id],
        flags.insert(id, true).insert(other, false)[id],
        flags.insert(id, true).insert(other, true)[id],
        flags.insert(id, true).remove(other)[id],
        all_requested(flags.insert(id, true))[id],
        all_requested(flags)[id],
        !flags.insert(id, true).remove(id).contains_key(id),
        !flags.insert(id, true).insert(id, false)[id],
{
}

} // verus!
