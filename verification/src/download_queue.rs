//! The download queue: first-in first-out admission under a concurrency
//! limit, duplicate suppression and lifecycle bookkeeping.

use std::collections::HashMap;
use std::collections::HashSet;
use std::collections::VecDeque;
use crate::text::opt_text;
use vstd::prelude::*;

verus! {

/// Where a download stands in its lifecycle. The last three are terminal.
#[derive(Debug, Clone, Copy, PartialEq, Eq, Structural)]
pub enum DownloadStatus {
    Queued,
    Downloading,
    Completed,
    Failed,
    Cancelled,
}

/// One requested download as the queue tracks it.
#[derive(Debug)]
pub struct QueuedDownload {
    pub media_idx: i32,
    pub url: String,
    pub output_location: String,
    /// Serialized settings; the queue never looks inside.
    pub settings: String,
    /// Folder below the output location, for playlists and channels.
    pub subfolder: Option<String>,
    pub status: DownloadStatus,
}

impl Clone for QueuedDownload {
    fn clone(&self) -> (r: Self)
        ensures
            r == *self,
    {
        QueuedDownload {
            media_idx: self.media_idx,
            url: self.url.clone(),
            output_location: self.output_location.clone(),
            settings: self.settings.clone(),
            subfolder: match &self.subfolder {
                Some(s) => Some(s.clone()),
                None => None,
            },
            status: self.status,
        }
    }
}

/// Counts reported by [`DownloadQueue::status`].
#[derive(Debug, Clone, Copy, PartialEq, Eq, Structural)]
pub struct QueueStatus {
    pub queued: usize,
    pub active: usize,
    pub max_concurrent: usize,
}

/// The content of a job.
pub struct JobView {
    pub media_idx: i32,
    pub url: Seq<char>,
    pub output_location: Seq<char>,
    pub settings: Seq<char>,
    pub subfolder: Option<Seq<char>>,
    pub status: DownloadStatus,
}

impl View for QueuedDownload {
    type V = JobView;

    open spec fn view(&self) -> JobView {
        JobView {
            media_idx: self.media_idx,
            url: self.url@,
            output_location: self.output_location@,
            settings: self.settings@,
            subfolder: opt_text(self.subfolder),
            status: self.status,
        }
    }
}

/// The content of an optional job.
pub open spec fn opt_job(d: Option<QueuedDownload>) -> Option<JobView> {
    match d {
        Some(job) => Some(job@),
        None => None,
    }
}

/// The contents of jobs, in their order.
pub open spec fn job_views(jobs: Seq<QueuedDownload>) -> Seq<JobView> {
    Seq::new(jobs.len(), |i: int| jobs[i]@)
}

/// The contents of jobs filed by id.
pub open spec fn filed_views(jobs: Map<i32, QueuedDownload>) -> Map<i32, JobView> {
    Map::new(|id: i32| jobs.contains_key(id), |id: i32| jobs[id]@)
}

/// The job `d` as it is once it is started.
pub open spec fn started(d: JobView) -> JobView {
    JobView { status: DownloadStatus::Downloading, ..d }
}

/// Whether some job in `jobs` has the id `id`.
pub open spec fn has_id(jobs: Seq<JobView>, id: i32) -> bool {
    exists|i: int| 0 <= i < jobs.len() && (#[trigger] jobs[i]).media_idx == id
}

/// The mathematical content of a queue: the pending jobs in arrival order,
/// the running jobs by id, and the concurrency limit.
pub struct QueueView {
    pub pending: Seq<JobView>,
    pub running: Map<i32, JobView>,
    pub max_concurrent: nat,
}

impl QueueView {
    /// The empty queue with limit `max`, raised to 1 if it is 0.
    pub open spec fn empty(max: nat) -> QueueView {
        QueueView {
            pending: Seq::empty(),
            running: Map::empty(),
            max_concurrent: if max < 1 { 1 } else { max },
        }
    }

    /// The ids of the pending jobs, in arrival order.
    pub open spec fn pending_ids(self) -> Seq<i32> {
        Seq::new(self.pending.len(), |i: int| self.pending[i].media_idx)
    }

    pub open spec fn is_pending(self, id: i32) -> bool {
        has_id(self.pending, id)
    }

    pub open spec fn is_running(self, id: i32) -> bool {
        self.running.contains_key(id)
    }

    /// Whether `id` is pending or running.
    pub open spec fn tracks(self, id: i32) -> bool {
        self.is_pending(id) || self.is_running(id)
    }

    /// No two pending jobs share an id.
    pub open spec fn pending_distinct(self) -> bool {
        forall|i: int, j: int|
            0 <= i < j < self.pending.len() ==> (#[trigger] self.pending[i]).media_idx != (
            #[trigger] self.pending[j]).media_idx
    }

    /// What holds of every queue: the limit is at least 1, an id is tracked
    /// at most once, and each running job is filed under its own id and
    /// marked as downloading.
    pub open spec fn valid(self) -> bool {
        &&& self.max_concurrent >= 1
        &&& self.pending_distinct()
        &&& self.running.dom().finite()
        &&& forall|i: int|
            0 <= i < self.pending.len() ==> !self.running.contains_key(
                (#[trigger] self.pending[i]).media_idx,
            )
        &&& forall|id: i32| #[trigger]
            self.running.contains_key(id) ==> self.running[id].media_idx == id
                && self.running[id].status == DownloadStatus::Downloading
    }

    /// No more jobs run than the limit allows.
    pub open spec fn within_capacity(self) -> bool {
        self.running.len() <= self.max_concurrent
    }

    /// Whether the next admission hands out a job.
    pub open spec fn can_start(self) -> bool {
        self.running.len() < self.max_concurrent && self.pending.len() > 0
    }

    pub open spec fn enqueue(self, d: JobView) -> QueueView {
        if self.tracks(d.media_idx) {
            self
        } else {
            QueueView { pending: self.pending.push(d), ..self }
        }
    }

    /// The job that the next admission hands out.
    pub open spec fn next_started(self) -> Option<JobView> {
        if self.can_start() {
            Some(started(self.pending[0]))
        } else {
            None
        }
    }

    pub open spec fn start_next(self) -> QueueView {
        if self.can_start() {
            QueueView {
                pending: self.pending.drop_first(),
                running: self.running.insert(self.pending[0].media_idx, started(self.pending[0])),
                ..self
            }
        } else {
            self
        }
    }

    /// The queue after the running job `id` reached a terminal outcome.
    pub open spec fn finish(self, id: i32) -> QueueView {
        QueueView { running: self.running.remove(id), ..self }
    }

    /// The queue after `id` was cancelled, pending or running.
    pub open spec fn cancel(self, id: i32) -> QueueView {
        QueueView {
            pending: self.pending.filter(|d: JobView| d.media_idx != id),
            running: self.running.remove(id),
            ..self
        }
    }

    pub open spec fn cancel_all(self) -> QueueView {
        QueueView { pending: Seq::empty(), running: Map::empty(), ..self }
    }

    pub open spec fn set_max_concurrent(self, max: nat) -> QueueView {
        QueueView { max_concurrent: if max < 1 { 1 } else { max }, ..self }
    }
}

/// Removing the one element at `pos` that fails the test is what filtering does.
pub proof fn lemma_filter_removes_one<A>(s: Seq<A>, pred: spec_fn(A) -> bool, pos: int)
    requires
        0 <= pos < s.len(),
        !pred(s[pos]),
        forall|i: int| 0 <= i < s.len() && i != pos ==> pred(s[i]),
    ensures
        s.filter(pred) == s.remove(pos),
    decreases s.len(),
{
    reveal(Seq::filter);
    let t = s.drop_last();
    if pos == s.len() - 1 {
        lemma_filter_keeps_all(t, pred);
    } else {
        lemma_filter_removes_one(t, pred, pos);
    }
}

/// Filtering keeps a sequence whose elements all pass the test.
pub proof fn lemma_filter_keeps_all<A>(s: Seq<A>, pred: spec_fn(A) -> bool)
    requires
        forall|i: int| 0 <= i < s.len() ==> pred(s[i]),
    ensures
        s.filter(pred) == s,
    decreases s.len(),
{
    reveal(Seq::filter);
    if s.len() > 0 {
        lemma_filter_keeps_all(s.drop_last(), pred);
    }
}

/// A bounded-concurrency download queue.
pub struct DownloadQueue {
    max_concurrent: usize,
    queue: VecDeque<QueuedDownload>,
    /// The ids in `queue`, for duplicate checks in constant time.
    queued_set: HashSet<i32>,
    active: HashMap<i32, QueuedDownload>,
}

impl View for DownloadQueue {
    type V = QueueView;

    closed spec fn view(&self) -> QueueView {
        QueueView {
            pending: job_views(self.queue@),
            running: filed_views(self.active@),
            max_concurrent: self.max_concurrent as nat,
        }
    }
}

impl DownloadQueue {
    /// The representation is consistent: the id set mirrors the pending
    /// sequence, and the content is a valid queue.
    pub closed spec fn wf(&self) -> bool {
        &&& self@.valid()
        &&& forall|id: i32| self.queued_set@.contains(id) <==> has_id(job_views(self.queue@), id)
    }

    /// A consistent queue holds valid content.
    pub proof fn lemma_wf_content_valid(&self)
        requires
            self.wf(),
        ensures
            self@.valid(),
    {
    }

    /// A queue with nothing in it and the given limit, raised to 1 if it is 0.
    pub fn new(max_concurrent: usize) -> (q: Self)
        ensures
            q.wf(),
            q@ == QueueView::empty(max_concurrent as nat),
    {
        let q = DownloadQueue {
            max_concurrent: if max_concurrent < 1 { 1 } else { max_concurrent },
            queue: VecDeque::new(),
            queued_set: HashSet::new(),
            active: HashMap::new(),
        };
        assert(job_views(q.queue@) =~= Seq::empty());
        assert(filed_views(q.active@) =~= Map::empty());
        q
    }

    /// Adds `download` at the back of the pending jobs, unless its id is
    /// already pending or running: then nothing changes. Never fails.
    pub fn enqueue(&mut self, download: QueuedDownload) -> (r: Result<(), String>)
        requires
            old(self).wf(),
        ensures
            r is Ok,
            final(self).wf(),
            final(self)@ == old(self)@.enqueue(download@),
            old(self)@.tracks(download.media_idx) ==> final(self)@ == old(self)@,
            old(self)@.within_capacity() ==> final(self)@.within_capacity(),
    {
        broadcast use vstd::std_specs::hash::group_hash_axioms;

        let idx = download.media_idx;
        if self.queued_set.contains(&idx) || self.active.contains_key(&idx) {
            return Ok(());
        }
        self.queued_set.insert(idx);
        self.queue.push_back(download);
        proof {
            let before = job_views(old(self).queue@);
            let after = job_views(self.queue@);
            assert(after =~= before.push(download@));
            assert forall|id: i32| self.queued_set@.contains(id) <==> has_id(after, id) by {
                if has_id(before, id) {
                    let i = choose|i: int| 0 <= i < before.len() && (#[trigger] before[i]).media_idx == id;
                    assert(after[i].media_idx == id);
                }
                if id == idx {
                    assert(after[before.len() as int].media_idx == id);
                }
            }
        }
        Ok(())
    }

    /// Hands out the oldest pending job, marked as downloading, if fewer
    /// jobs run than the limit allows; otherwise nothing.
    pub fn next_to_start(&mut self) -> (r: Option<QueuedDownload>)
        requires
            old(self).wf(),
        ensures
            final(self).wf(),
            final(self)@ == old(self)@.start_next(),
            opt_job(r) == old(self)@.next_started(),
            old(self)@.within_capacity() ==> final(self)@.within_capacity(),
    {
        broadcast use vstd::std_specs::hash::group_hash_axioms;

        proof {
            assert(filed_views(self.active@).dom() =~= self.active@.dom());
        }
        if self.active.len() >= self.max_concurrent {
            return None;
        }
        match self.queue.pop_front() {
            Some(mut download) => {
                let ghost first = download@;
                self.queued_set.remove(&download.media_idx);
                download.status = DownloadStatus::Downloading;
                self.active.insert(download.media_idx, download.clone());
                proof {
                    let before = job_views(old(self).queue@);
                    let after = job_views(self.queue@);
                    assert(after =~= before.drop_first());
                    assert(filed_views(self.active@) =~= filed_views(old(self).active@).insert(
                        first.media_idx,
                        started(first),
                    ));
                    assert forall|id: i32| self.queued_set@.contains(id) <==> has_id(after, id) by {
                        if has_id(before, id) && id != first.media_idx {
                            let i = choose|i: int|
                                0 <= i < before.len() && (#[trigger] before[i]).media_idx == id;
                            assert(after[i - 1].media_idx == id);
                        }
                    }
                }
                Some(download)
            },
            None => {
                None
            },
        }
    }

    /// Drops the running job `media_idx` as completed. Says whether it was running.
    pub fn complete(&mut self, media_idx: i32) -> (found: bool)
        requires
            old(self).wf(),
        ensures
            final(self).wf(),
            final(self)@ == old(self)@.finish(media_idx),
            found == old(self)@.is_running(media_idx),
            old(self)@.within_capacity() ==> final(self)@.within_capacity(),
    {
        self.finish(media_idx, DownloadStatus::Completed)
    }

    /// Drops the running job `media_idx` as failed. Says whether it was running.
    pub fn fail(&mut self, media_idx: i32) -> (found: bool)
        requires
            old(self).wf(),
        ensures
            final(self).wf(),
            final(self)@ == old(self)@.finish(media_idx),
            found == old(self)@.is_running(media_idx),
            old(self)@.within_capacity() ==> final(self)@.within_capacity(),
    {
        self.finish(media_idx, DownloadStatus::Failed)
    }

    fn finish(&mut self, media_idx: i32, outcome: DownloadStatus) -> (found: bool)
        requires
            old(self).wf(),
        ensures
            final(self).wf(),
            final(self)@ == old(self)@.finish(media_idx),
            found == old(self)@.is_running(media_idx),
            old(self)@.within_capacity() ==> final(self)@.within_capacity(),
    {
        broadcast use vstd::std_specs::hash::group_hash_axioms;

        let found = match self.active.remove(&media_idx) {
            Some(mut download) => {
                download.status = outcome;
                true
            },
            None => false,
        };
        assert(filed_views(self.active@) =~= filed_views(old(self).active@).remove(media_idx));
        found
    }

    /// Removes `media_idx` from the pending jobs or from the running ones.
    /// Says whether the id was tracked.
    pub fn cancel(&mut self, media_idx: i32) -> (found: bool)
        requires
            old(self).wf(),
        ensures
            final(self).wf(),
            final(self)@ == old(self)@.cancel(media_idx),
            found == old(self)@.tracks(media_idx),
            !final(self)@.tracks(media_idx),
            old(self)@.within_capacity() ==> final(self)@.within_capacity(),
    {
        broadcast use vstd::std_specs::hash::group_hash_axioms;

        let ghost pred = |d: JobView| d.media_idx != media_idx;
        let ghost before = job_views(self.queue@);
        if self.queued_set.remove(&media_idx) {
            let mut pos: usize = 0;
            while pos < self.queue.len() && self.queue[pos].media_idx != media_idx
                invariant
                    pos <= self.queue.len(),
                    self.queue == old(self).queue,
                    before == job_views(self.queue@),
                    forall|i: int| 0 <= i < pos ==> (#[trigger] before[i]).media_idx != media_idx,
                decreases self.queue.len() - pos,
            {
                pos = pos + 1;
            }
            self.queue.remove(pos);
            proof {
                let after = job_views(self.queue@);
                assert(after =~= before.remove(pos as int));
                lemma_filter_removes_one(before, pred, pos as int);
                assert(filed_views(self.active@) =~= filed_views(old(self).active@).remove(
                    media_idx,
                ));
                assert forall|id: i32| self.queued_set@.contains(id) <==> has_id(after, id) by {
                    if has_id(before, id) && id != media_idx {
                        let k = choose|k: int|
                            0 <= k < before.len() && (#[trigger] before[k]).media_idx == id;
                        let i = if k < pos { k } else { k - 1 };
                        assert(after[i].media_idx == id);
                    }
                }
            }
            return true;
        }
        proof {
            lemma_filter_keeps_all(before, pred);
        }
        let found = match self.active.remove(&media_idx) {
            Some(mut download) => {
                download.status = DownloadStatus::Cancelled;
                true
            },
            None => false,
        };
        assert(filed_views(self.active@) =~= filed_views(old(self).active@).remove(media_idx));
        found
    }

    /// Empties the queue and returns every id it tracked: the pending ids
    /// in arrival order, then the running ids in no particular order.
    pub fn cancel_all(&mut self) -> (cancelled: Vec<i32>)
        requires
            old(self).wf(),
        ensures
            final(self).wf(),
            final(self)@ == old(self)@.cancel_all(),
            cancelled@.len() == old(self)@.pending.len() + old(self)@.running.len(),
            cancelled@.take(old(self)@.pending.len() as int) == old(self)@.pending_ids(),
            cancelled@.skip(old(self)@.pending.len() as int).to_set() == old(self)@.running.dom(),
            cancelled@.no_duplicates(),
            forall|id: i32| cancelled@.contains(id) <==> old(self)@.tracks(id),
    {
        broadcast use vstd::std_specs::hash::group_hash_axioms;

        let ghost before = self@;
        let ghost ids = before.pending_ids();
        let ghost jobs = self.queue@;
        let mut cancelled: Vec<i32> = Vec::new();
        proof {
            assert(filed_views(self.active@).dom() =~= self.active@.dom());
        }
        loop
            invariant
                self.active == old(self).active,
                self.max_concurrent == old(self).max_concurrent,
                before == old(self)@,
                jobs == old(self).queue@,
                ids == before.pending_ids(),
                cancelled@.len() <= ids.len(),
                cancelled@ == ids.take(cancelled@.len() as int),
                self.queue@ == jobs.skip(cancelled@.len() as int),
            ensures
                cancelled@.len() == ids.len(),
                self.queue@.len() == 0,
            decreases self.queue@.len(),
        {
            match self.queue.pop_front() {
                Some(download) => {
                    cancelled.push(download.media_idx);
                },
                None => {
                    break ;
                },
            }
        }
        assert(job_views(self.queue@) =~= Seq::empty());
        self.queued_set.clear();
        let n = cancelled.len();
        for k in it: self.active.keys()
            invariant
                n == ids.len(),
                cancelled@ == ids + it.seq().unref().take(it.index() as int),
                cancelled@.skip(n as int) == it.seq().unref().take(it.index() as int),
                it.seq().unref().take(it.seq().len() as int) == it.seq().unref(),
                it.seq().unref().to_set() == self.active@.dom(),
                it.seq().unref().no_duplicates(),
                it.seq().len() == self.active@.dom().len(),
        {
            cancelled.push(*k);
        }
        self.active.clear();
        proof {
            assert(filed_views(self.active@) =~= Map::empty());
            assert forall|id: i32| cancelled@.contains(id) <==> before.tracks(id) by {
                if before.is_pending(id) {
                    let i = choose|i: int|
                        0 <= i < before.pending.len() && (#[trigger] before.pending[i]).media_idx
                            == id;
                    assert(cancelled@[i] == id);
                }
            }
        }
        cancelled
    }

    /// The number of pending jobs.
    pub fn queue_size(&self) -> (n: usize)
        ensures
            n == self@.pending.len(),
    {
        self.queue.len()
    }

    /// The number of running jobs.
    pub fn active_count(&self) -> (n: usize)
        ensures
            n == self@.running.len(),
    {
        broadcast use vstd::std_specs::hash::group_hash_axioms;

        proof {
            assert(filed_views(self.active@).dom() =~= self.active@.dom());
        }
        self.active.len()
    }

    /// Whether the job `media_idx` is running.
    pub fn is_active(&self, media_idx: i32) -> (r: bool)
        ensures
            r == self@.is_running(media_idx),
    {
        broadcast use vstd::std_specs::hash::group_hash_axioms;

        self.active.contains_key(&media_idx)
    }

    /// Sets the limit, raised to 1 if it is 0. Running jobs are left alone.
    pub fn set_max_concurrent(&mut self, max: usize)
        requires
            old(self).wf(),
        ensures
            final(self).wf(),
            final(self)@ == old(self)@.set_max_concurrent(max as nat),
            final(self)@.max_concurrent >= 1,
            old(self)@.running.len() <= max ==> final(self)@.within_capacity(),
    {
        self.max_concurrent = if max < 1 { 1 } else { max };
    }

    /// The counts of pending and running jobs, and the limit.
    pub fn status(&self) -> (s: QueueStatus)
        requires
            self.wf(),
        ensures
            s.queued == self@.pending.len(),
            s.active == self@.running.len(),
            s.max_concurrent == self@.max_concurrent,
            s.max_concurrent >= 1,
    {
        broadcast use vstd::std_specs::hash::group_hash_axioms;

        proof {
            assert(filed_views(self.active@).dom() =~= self.active@.dom());
        }
        QueueStatus {
            queued: self.queue.len(),
            active: self.active.len(),
            max_concurrent: self.max_concurrent,
        }
    }
}

} // verus!
