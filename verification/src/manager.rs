//! The batch scheduler.
//!
//! A [`DownloadManager`] accepts a batch of entries, decides the effective
//! concurrency from the mix of local and remote sources, owns one
//! [`SingleDownloader`] per entry, mirrors every job's byte progress into a
//! shared counter, and returns the settled outcomes in the caller's
//! submission order, whatever order the jobs completed in.
//!
//! The manager performs no I/O and spawns nothing itself: a runtime drives
//! the jobs — concurrently, up to the effective concurrency — by feeding
//! events through [`DownloadManager::job_step`].  One job's terminal
//! failure never cancels or blocks the others; every entry yields exactly
//! one outcome.

use vstd::prelude::*;

use crate::download::{DownloadEntry, DownloadResult, DownloadSourceType, Summary};
use crate::progress::DownloadProgressControl;
use crate::single::{sat_add, DownloadAction, DownloadEvent, JobPhase, SingleDownloader};
use vstd::pervasive::unreached;
use vstd::std_specs::vec::vec_index_mut;

verus! {

/// The documented default concurrency budget.
pub const DEFAULT_THREADS: usize = 4;

/// The documented default retry budget per source.
pub const DEFAULT_RETRY_TIMES: usize = 3;

/// Where the batch stands.  There is no mid-batch cancellation: once
/// running, the batch drains until every job has settled.
#[derive(Debug, Clone, Copy, PartialEq, Eq, Structural)]
pub enum ManagerState {
    /// Entries accepted, nothing dispatched.
    Idle,
    /// Jobs exist and are being driven; once every one has settled the
    /// batch is draining and may be finished.
    Running,
    /// The batch-complete signal went out and the outcomes were returned.
    Done,
}

/// How many entries of the batch have at least one local source.
pub open spec fn count_local(s: Seq<DownloadEntry>) -> int
    decreases s.len(),
{
    if s.len() == 0 {
        0
    } else {
        count_local(s.drop_last()) + if s.last().has_local_source() {
            1int
        } else {
            0int
        }
    }
}

/// The bytes transferred by all jobs together.
pub open spec fn sum_transferred(s: Seq<SingleDownloader>) -> int
    decreases s.len(),
{
    if s.len() == 0 {
        0
    } else {
        sum_transferred(s.drop_last()) + s.last().transferred
    }
}

/// Owns a batch of download jobs and schedules them.
pub struct DownloadManager {
    /// The batch, in the caller's order; handed over to the jobs when the
    /// batch starts.
    pub download_list: Vec<DownloadEntry>,
    /// The configured concurrency budget.
    pub threads: usize,
    /// The retry budget handed to every job.
    pub retry_times: usize,
    /// The known total byte size of the batch; zero means unknown and
    /// suppresses the aggregate display.
    pub total_size: u64,
    /// The shared byte counter: everything the jobs transferred so far,
    /// capped at the counter's width.  It only ever grows.
    pub global_progress: u64,
    /// One job per entry, at the entry's index, once running.
    pub jobs: Vec<SingleDownloader>,
    /// Where the batch stands.
    pub state: ManagerState,
}

impl DownloadManager {
    /// Each job is well formed, sits at its entry's index and carries this
    /// manager's retry budget.
    pub open spec fn jobs_match(&self) -> bool {
        forall|i: int| 0 <= i < self.jobs@.len() ==> {
            let j = #[trigger] self.jobs@[i];
            &&& j.wf()
            &&& j.index == i
            &&& j.retry_times == self.retry_times
        }
    }

    /// The scheduler's invariant.
    pub open spec fn wf(&self) -> bool {
        &&& self.threads >= 1
        &&& self.retry_times >= 1
        &&& match self.state {
            ManagerState::Idle => {
                &&& self.jobs@.len() == 0
                &&& self.global_progress == 0
                &&& forall|i: int|
                    0 <= i < self.download_list@.len() ==> ((
                    #[trigger] self.download_list@[i]).source@.len() as int) * (
                    self.retry_times as int) <= usize::MAX as int
            },
            ManagerState::Running => {
                &&& self.jobs_match()
                &&& sum_transferred(self.jobs@) <= u64::MAX ==> self.global_progress as int
                    == sum_transferred(self.jobs@)
            },
            ManagerState::Done => true,
        }
    }

    /// The concurrency the batch actually runs at: one when local-sourced
    /// entries are at least half the batch — concurrent local reads contend
    /// on the disk and gain nothing from overlap — otherwise the configured
    /// thread count, which lets remote requests overlap their latency.
    pub open spec fn effective_concurrency_spec(&self) -> int {
        if 2 * count_local(self.download_list@) >= self.download_list@.len() {
            1
        } else {
            self.threads as int
        }
    }

    /// Accepts a batch together with its budgets and the known total size.
    pub fn new(
        download_list: Vec<DownloadEntry>,
        threads: usize,
        retry_times: usize,
        total_size: u64,
    ) -> (r: Self)
        requires
            threads >= 1,
            retry_times >= 1,
            forall|i: int|
                0 <= i < download_list@.len() ==> ((#[trigger] download_list@[i]).source@.len()
                    as int) * (retry_times as int) <= usize::MAX as int,
        ensures
            r.wf(),
            r.state == ManagerState::Idle,
            r.download_list == download_list,
            r.threads == threads,
            r.retry_times == retry_times,
            r.total_size == total_size,
            r.global_progress == 0,
    {
        DownloadManager {
            download_list,
            threads,
            retry_times,
            total_size,
            global_progress: 0,
            jobs: Vec::new(),
            state: ManagerState::Idle,
        }
    }

    /// A manager with the documented defaults: four threads, three retries
    /// per source, no known total size.
    pub fn with_defaults(download_list: Vec<DownloadEntry>) -> (r: Self)
        requires
            forall|i: int|
                0 <= i < download_list@.len() ==> ((#[trigger] download_list@[i]).source@.len()
                    as int) * (DEFAULT_RETRY_TIMES as int) <= usize::MAX as int,
        ensures
            r.wf(),
            r.state == ManagerState::Idle,
            r.download_list == download_list,
            r.threads == DEFAULT_THREADS,
            r.retry_times == DEFAULT_RETRY_TIMES,
            r.total_size == 0,
            r.global_progress == 0,
    {
        Self::new(download_list, DEFAULT_THREADS, DEFAULT_RETRY_TIMES, 0)
    }

    /// Classifies the batch, announces the aggregate bar when the total
    /// size is known, builds one job per entry and returns the effective
    /// concurrency for the runtime's pool.  Jobs own their entries from
    /// here on.
    pub fn start_download<P: DownloadProgressControl>(&mut self, progress: &P) -> (n: usize)
        requires
            old(self).wf(),
            old(self).state == ManagerState::Idle,
        ensures
            final(self).wf(),
            final(self).state == ManagerState::Running,
            final(self).threads == old(self).threads,
            final(self).retry_times == old(self).retry_times,
            final(self).total_size == old(self).total_size,
            final(self).global_progress == 0,
            final(self).jobs@.len() == old(self).download_list@.len(),
            forall|i: int|
                0 <= i < final(self).jobs@.len() ==> {
                    let j = #[trigger] final(self).jobs@[i];
                    &&& j.phase == JobPhase::Created
                    &&& j.entry == old(self).download_list@[i]
                    &&& j.index == i
                    &&& j.transferred == 0
                },
            n as int == old(self).effective_concurrency_spec(),
    {
        let total = self.download_list.len();
        let mut local_count: usize = 0;
        let mut i: usize = 0;
        while i < total
            invariant
                *self == *old(self),
                total == self.download_list@.len(),
                i <= total,
                local_count <= i,
                local_count as int == count_local(self.download_list@.take(i as int)),
            decreases total - i,
        {
            if entry_has_local(&self.download_list[i]) {
                local_count = local_count + 1;
            }
            proof {
                let t = self.download_list@.take(i + 1);
                assert(t.drop_last() =~= self.download_list@.take(i as int));
                assert(t.last() == self.download_list@[i as int]);
            }
            i = i + 1;
        }
        proof {
            assert(self.download_list@.take(total as int) =~= self.download_list@);
        }
        let n = if local_count >= total - local_count {
            1
        } else {
            self.threads
        };
        if self.total_size != 0 {
            progress.new_global_progress_bar(self.total_size);
        }
        let ghost entries = self.download_list@;
        let mut jobs: Vec<SingleDownloader> = Vec::new();
        while self.download_list.len() > 0
            invariant
                self.threads == old(self).threads,
                self.retry_times == old(self).retry_times,
                self.total_size == old(self).total_size,
                self.global_progress == 0,
                self.state == ManagerState::Idle,
                self.jobs@.len() == 0,
                self.retry_times >= 1,
                total == entries.len(),
                jobs@.len() + self.download_list@.len() == total,
                self.download_list@ =~= entries.skip(jobs@.len() as int),
                forall|k: int|
                    0 <= k < entries.len() ==> ((#[trigger] entries[k]).source@.len() as int) * (
                    self.retry_times as int) <= usize::MAX as int,
                forall|k: int|
                    0 <= k < jobs@.len() ==> {
                        let j = #[trigger] jobs@[k];
                        &&& j.wf()
                        &&& j.phase == JobPhase::Created
                        &&& j.entry == entries[k]
                        &&& j.index == k
                        &&& j.retry_times == self.retry_times
                        &&& j.transferred == 0
                    },
            decreases self.download_list@.len(),
        {
            let e = self.download_list.remove(0);
            let idx = jobs.len();
            let job = SingleDownloader::new(e, idx, total, self.retry_times);
            jobs.push(job);
        }
        self.jobs = jobs;
        self.state = ManagerState::Running;
        proof {
            lemma_sum_all_zero(self.jobs@);
        }
        n
    }

    /// Starts job `i` and returns its first action.
    pub fn job_start<P: DownloadProgressControl>(&mut self, i: usize, progress: &P) -> (act:
        DownloadAction)
        requires
            old(self).wf(),
            old(self).state == ManagerState::Running,
            i < old(self).jobs@.len(),
            old(self).jobs@[i as int].phase == JobPhase::Created,
        ensures
            final(self).wf(),
            final(self).state == ManagerState::Running,
            final(self).global_progress == old(self).global_progress,
            final(self).jobs@ =~= old(self).jobs@.update(i as int, final(self).jobs@[i as int]),
            SingleDownloader::config_unchanged(
                old(self).jobs@[i as int],
                final(self).jobs@[i as int],
            ),
            SingleDownloader::start_post(
                old(self).jobs@[i as int],
                final(self).jobs@[i as int],
                act,
            ),
            (act == DownloadAction::Settled) <==> (final(self).jobs@[i as int].phase is Settled),
    {
        let ghost s0 = self.jobs@;
        let j = vec_index_mut(&mut self.jobs, i);
        let act = j.start(progress);
        proof {
            lemma_sum_update(s0, i as int, self.jobs@[i as int]);
        }
        act
    }

    /// Feeds one event to job `i`, mirrors the job's byte progress into
    /// the shared counter — which therefore never decreases — and returns
    /// the job's next action.
    pub fn job_step<P: DownloadProgressControl>(
        &mut self,
        i: usize,
        ev: DownloadEvent,
        progress: &P,
    ) -> (act: DownloadAction)
        requires
            old(self).wf(),
            old(self).state == ManagerState::Running,
            i < old(self).jobs@.len(),
            old(self).jobs@[i as int].expects(ev),
        ensures
            final(self).wf(),
            final(self).state == ManagerState::Running,
            final(self).global_progress >= old(self).global_progress,
            final(self).jobs@ =~= old(self).jobs@.update(i as int, final(self).jobs@[i as int]),
            SingleDownloader::config_unchanged(
                old(self).jobs@[i as int],
                final(self).jobs@[i as int],
            ),
            SingleDownloader::step_post(
                old(self).jobs@[i as int],
                ev,
                final(self).jobs@[i as int],
                act,
            ),
            (act == DownloadAction::Settled) <==> (final(self).jobs@[i as int].phase is Settled),
    {
        let ghost s0 = self.jobs@;
        let before = self.jobs[i].transferred;
        let j = vec_index_mut(&mut self.jobs, i);
        let act = j.step(ev, progress);
        let after = self.jobs[i].transferred;
        proof {
            lemma_sum_update(s0, i as int, self.jobs@[i as int]);
            lemma_sum_bounds(s0, i as int);
        }
        self.global_progress = sat_add(self.global_progress, after - before);
        act
    }

    /// True when every job has settled: the batch has drained.
    pub fn finished(&self) -> (r: bool)
        requires
            self.wf(),
            self.state == ManagerState::Running,
        ensures
            r == (forall|i: int|
                0 <= i < self.jobs@.len() ==> (#[trigger] self.jobs@[i]).phase is Settled),
    {
        let n = self.jobs.len();
        let mut i: usize = 0;
        while i < n
            invariant
                n == self.jobs@.len(),
                i <= n,
                forall|k: int| 0 <= k < i ==> (#[trigger] self.jobs@[k]).phase is Settled,
            decreases n - i,
        {
            let settled = match self.jobs[i].phase {
                JobPhase::Settled => true,
                _ => false,
            };
            if !settled {
                return false;
            }
            i = i + 1;
        }
        true
    }

    /// Returns one outcome per entry, in the caller's submission order and
    /// regardless of the order the jobs completed in, and signals
    /// batch-complete to the observer exactly once.
    pub fn finish<P: DownloadProgressControl>(&mut self, progress: &P) -> (r: Vec<
        DownloadResult<Summary>,
    >)
        requires
            old(self).wf(),
            old(self).state == ManagerState::Running,
            forall|i: int|
                0 <= i < old(self).jobs@.len() ==> (#[trigger] old(self).jobs@[i]).phase
                    is Settled,
        ensures
            final(self).wf(),
            final(self).state == ManagerState::Done,
            r@.len() == old(self).jobs@.len(),
            forall|i: int|
                0 <= i < r@.len() ==> Some(#[trigger] r@[i]) == old(self).jobs@[i].outcome,
            forall|i: int|
                0 <= i < r@.len() ==> ((#[trigger] r@[i]) matches Ok(s) ==> s.count == i),
    {
        let ghost s0 = self.jobs@;
        let mut res: Vec<DownloadResult<Summary>> = Vec::new();
        while self.jobs.len() > 0
            invariant
                self.threads >= 1,
                self.retry_times >= 1,
                res@.len() + self.jobs@.len() == s0.len(),
                self.jobs@ =~= s0.skip(res@.len() as int),
                forall|k: int| 0 <= k < s0.len() ==> (#[trigger] s0[k]).phase is Settled,
                forall|k: int| 0 <= k < s0.len() ==> (#[trigger] s0[k]).wf(),
                forall|k: int| 0 <= k < s0.len() ==> (#[trigger] s0[k]).index == k,
                forall|k: int| 0 <= k < res@.len() ==> Some(#[trigger] res@[k]) == s0[k].outcome,
            decreases self.jobs@.len(),
        {
            let j = self.jobs.remove(0);
            match j.outcome {
                Some(o) => res.push(o),
                None => unreached(),
            }
        }
        self.state = ManagerState::Done;
        progress.all_done();
        proof {
            assert forall|i: int| 0 <= i < res@.len() implies ((#[trigger] res@[i]) matches Ok(s)
                ==> s.count == i) by {
                assert(Some(res@[i]) == s0[i].outcome);
                assert(s0[i].wf());
            }
        }
        res
    }
}

/// True when some source of the entry is local.
fn entry_has_local(e: &DownloadEntry) -> (r: bool)
    ensures
        r == e.has_local_source(),
{
    let n = e.source.len();
    let mut i: usize = 0;
    while i < n
        invariant
            n == e.source@.len(),
            i <= n,
            forall|j: int| 0 <= j < i ==> !(#[trigger] e.source@[j]).source_type.is_local(),
        decreases n - i,
    {
        let is_local = match &e.source[i].source_type {
            DownloadSourceType::Local(_) => true,
            DownloadSourceType::Http { .. } => false,
        };
        if is_local {
            return true;
        }
        i = i + 1;
    }
    false
}

/// Replacing one job changes the byte total by that job's difference.
proof fn lemma_sum_update(s: Seq<SingleDownloader>, i: int, j: SingleDownloader)
    requires
        0 <= i < s.len(),
    ensures
        sum_transferred(s.update(i, j)) == sum_transferred(s) - s[i].transferred + j.transferred,
    decreases s.len(),
{
    if i == s.len() - 1 {
        assert(s.update(i, j).drop_last() =~= s.drop_last());
        assert(s.update(i, j).last() == j);
    } else {
        lemma_sum_update(s.drop_last(), i, j);
        assert(s.update(i, j).drop_last() =~= s.drop_last().update(i, j));
        assert(s.update(i, j).last() == s.last());
    }
}

/// The byte total lies between any one job's bytes and nothing below zero.
proof fn lemma_sum_bounds(s: Seq<SingleDownloader>, i: int)
    requires
        0 <= i < s.len(),
    ensures
        s[i].transferred <= sum_transferred(s),
        sum_transferred(s) >= 0,
    decreases s.len(),
{
    lemma_sum_nonneg(s.drop_last());
    if i == s.len() - 1 {
    } else {
        lemma_sum_bounds(s.drop_last(), i);
    }
}

/// A sum of byte counters is never negative.
proof fn lemma_sum_nonneg(s: Seq<SingleDownloader>)
    ensures
        sum_transferred(s) >= 0,
    decreases s.len(),
{
    if s.len() > 0 {
        lemma_sum_nonneg(s.drop_last());
    }
}

/// Jobs that transferred nothing sum to nothing.
proof fn lemma_sum_all_zero(s: Seq<SingleDownloader>)
    requires
        forall|i: int| 0 <= i < s.len() ==> (#[trigger] s[i]).transferred == 0,
    ensures
        sum_transferred(s) == 0,
    decreases s.len(),
{
    if s.len() > 0 {
        lemma_sum_all_zero(s.drop_last());
    }
}

/// Once the batch has drained, and as long as the true byte total fits the
/// counter's width, the shared counter equals the sum of the bytes the
/// jobs actually transferred.  It grows monotonically throughout the run:
/// see the `global_progress` clauses of [`DownloadManager::job_step`].
pub proof fn lemma_global_progress_counts_transfers(m: DownloadManager)
    requires
        m.wf(),
        m.state == ManagerState::Running,
        sum_transferred(m.jobs@) <= u64::MAX,
    ensures
        m.global_progress as int == sum_transferred(m.jobs@),
{
}

} // verus!
