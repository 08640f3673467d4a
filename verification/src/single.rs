//! The per-entry fetch state machine.
//!
//! A [`SingleDownloader`] drives one [`DownloadEntry`] to completion: it
//! tries the entry's sources in order, verifies streamed bytes against the
//! expected digest, retries a mismatching source within the retry budget,
//! falls back to the next source, and settles with a [`Summary`] or a
//! [`DownloadError`].
//!
//! The machine itself performs no I/O.  Each call returns a
//! [`DownloadAction`] telling the runtime what to do next; the runtime
//! answers with a [`DownloadEvent`].  All decisions — short-circuiting an
//! already-valid destination, seeding a resumed hash, counting retries,
//! choosing the next source, classifying the terminal error — are made here
//! and verified.

use vstd::prelude::*;

use crate::checksum::ChecksumValidator;
use crate::download::{DownloadEntry, DownloadError, DownloadResult, Summary};
use crate::progress::DownloadProgressControl;
use crate::strutil::{clone_opt_string, str_starts_with};
use vstd::pervasive::unreached;

verus! {

/// What the runtime reports back to the machine.
#[derive(Debug)]
pub enum DownloadEvent {
    /// Answer to [`DownloadAction::CheckExisting`]: the destination file
    /// exists and its contents verify against the expected digest.
    Existing { verified: bool },
    /// Answer to [`DownloadAction::QueryPartial`]: the bytes already on
    /// disk at the destination, or `None` when there is no usable partial
    /// file.
    Partial { data: Option<Vec<u8>> },
    /// The transfer began: the connection is open or the local source file
    /// was opened.
    Started,
    /// The remote answered that the artifact does not exist.
    NotFound,
    /// The transport failed: connect, TLS, timeout or a non-success status
    /// other than "not found".
    TransportFailed { error: String },
    /// A local read, write or open failed.
    IoFailed { error: String },
    /// One chunk of the body arrived and was appended to the destination.
    Chunk { data: Vec<u8> },
    /// The body ended.
    Finished,
}

/// What the runtime must do next.
#[derive(Debug, Clone, Copy, PartialEq, Eq, Structural)]
pub enum DownloadAction {
    /// Verify the existing destination file against the expected digest
    /// (e.g. with [`crate::checksum::Checksum::cmp_data`]); reply with
    /// [`DownloadEvent::Existing`].
    CheckExisting,
    /// Read whatever partial file sits at the destination; reply with
    /// [`DownloadEvent::Partial`].
    QueryPartial,
    /// Transfer source `src` of the entry into the destination, starting at
    /// byte `resume_from`.  A zero offset means from scratch: any stale
    /// partial file is truncated first.  Reply with
    /// [`DownloadEvent::Started`], [`DownloadEvent::NotFound`],
    /// [`DownloadEvent::TransportFailed`] or [`DownloadEvent::IoFailed`].
    Fetch { src: usize, resume_from: u64 },
    /// Read the next piece of the body, append it to the destination, and
    /// reply with [`DownloadEvent::Chunk`], [`DownloadEvent::Finished`],
    /// [`DownloadEvent::TransportFailed`] or [`DownloadEvent::IoFailed`].
    Receive,
    /// The job settled; its outcome is available.
    Settled,
}

/// Where the machine stands.
#[derive(Debug, Clone, Copy, PartialEq, Eq, Structural)]
pub enum JobPhase {
    /// Built, not started.
    Created,
    /// Waiting to hear whether the destination already verifies.
    CheckingExisting,
    /// Waiting to hear what partial file exists, before source `src`.
    CheckingPartial { src: usize, attempt: usize },
    /// Waiting for the transfer of source `src`, attempt `attempt`, to
    /// begin.
    Connecting { src: usize, attempt: usize },
    /// Receiving the body of source `src`, attempt `attempt`.
    Streaming { src: usize, attempt: usize },
    /// Finished, successfully or not.
    Settled,
}

/// A URL a remote source may carry.
pub open spec fn valid_http_url(u: Seq<char>) -> bool {
    "http://"@.is_prefix_of(u) || "https://"@.is_prefix_of(u)
}

/// `a + b` capped at the largest counter value.
pub open spec fn sat_add_u64(a: u64, b: int) -> u64 {
    if a + b > u64::MAX {
        u64::MAX
    } else {
        (a + b) as u64
    }
}

/// Drives one entry to completion.
pub struct SingleDownloader {
    /// The artifact this job fetches.
    pub entry: DownloadEntry,
    /// The entry's position in the batch; `Summary::count` reports it back.
    pub index: usize,
    /// How often one source is attempted before falling back.
    pub retry_times: usize,
    /// Display pair: this job's one-based position and the batch size.
    pub position: (usize, usize),
    /// Where the machine stands.
    pub phase: JobPhase,
    /// The verifier for the current attempt, when a digest is expected.
    pub validator: Option<ChecksumValidator>,
    /// The bytes fed to the validator in the current attempt: the seeded
    /// prefix plus every received chunk, in order.
    pub content: Ghost<Seq<u8>>,
    /// Bytes actually transferred by this job over all attempts.
    pub transferred: u64,
    /// How many checksum-mismatch retries were signalled to the observer.
    pub mismatches: usize,
    /// True while no attempt has failed for a reason other than a checksum
    /// mismatch.
    pub only_mismatch_failures: bool,
    /// The settled outcome.
    pub outcome: Option<DownloadResult<Summary>>,
}

impl SingleDownloader {
    /// The bytes fed to the validator in the current attempt.
    pub open spec fn content(&self) -> Seq<u8> {
        self.content@
    }

    /// The settled outcome.
    pub open spec fn outcome_spec(&self) -> Option<DownloadResult<Summary>> {
        self.outcome
    }

    /// `s` reports this job with the given transfer flag.
    pub open spec fn is_summary(&self, s: Summary, wrote: bool) -> bool {
        &&& s.filename@ == self.entry.filename@
        &&& s.wrote == wrote
        &&& s.count == self.index
        &&& (s.context is Some <==> self.entry.msg is Some)
        &&& (s.context matches Some(c) ==> self.entry.msg matches Some(m) && c@ == m@)
    }

    /// The validator belongs to the expected digest and has been fed
    /// exactly the current attempt's bytes.
    pub open spec fn validator_matches(&self) -> bool {
        match self.entry.hash {
            Some(h) => {
                &&& self.validator matches Some(v)
                &&& v.expected() == h.digest()
                &&& v.is_sha256() == h.is_sha256()
                &&& v.fed() == self.content@
            },
            None => self.validator is None,
        }
    }

    /// Attempts consumed when the machine stands at source `src`, attempt
    /// `attempt`.
    pub open spec fn attempts_before(&self, src: int, attempt: int) -> int {
        src * (self.retry_times as int) + (attempt - 1)
    }

    /// Source and attempt indices lie within the entry and the budget.
    pub open spec fn at_valid_position(&self, src: int, attempt: int) -> bool {
        &&& 0 <= src < self.entry.source@.len()
        &&& 1 <= attempt <= self.retry_times
    }

    /// The mismatch counter never exceeds the attempts consumed, and counts
    /// them exactly while every failure so far was a mismatch.
    pub open spec fn mismatch_count_ok(&self, src: int, attempt: int) -> bool {
        &&& self.mismatches <= self.attempts_before(src, attempt)
        &&& self.only_mismatch_failures ==> self.mismatches == self.attempts_before(src, attempt)
    }

    /// The machine's invariant: every constructor establishes it and every
    /// step preserves it.
    pub open spec fn wf(&self) -> bool {
        &&& self.retry_times >= 1
        &&& (self.entry.source@.len() as int) * (self.retry_times as int) <= usize::MAX as int
        &&& match self.phase {
            JobPhase::Created => {
                &&& self.outcome is None
                &&& self.mismatches == 0
                &&& self.only_mismatch_failures
                &&& self.transferred == 0
                &&& self.validator is None
            },
            JobPhase::CheckingExisting => {
                &&& self.outcome is None
                &&& self.entry.hash is Some
                &&& self.entry.source@.len() > 0
                &&& self.mismatches == 0
                &&& self.only_mismatch_failures ==> self.mismatches == 0
            },
            JobPhase::CheckingPartial { src, attempt } => {
                &&& self.outcome is None
                &&& self.at_valid_position(src as int, attempt as int)
                &&& self.mismatch_count_ok(src as int, attempt as int)
                &&& self.validator is None
            },
            JobPhase::Connecting { src, attempt } => {
                &&& self.outcome is None
                &&& self.at_valid_position(src as int, attempt as int)
                &&& self.mismatch_count_ok(src as int, attempt as int)
                &&& self.validator_matches()
            },
            JobPhase::Streaming { src, attempt } => {
                &&& self.outcome is None
                &&& self.at_valid_position(src as int, attempt as int)
                &&& self.mismatch_count_ok(src as int, attempt as int)
                &&& self.validator_matches()
            },
            JobPhase::Settled => {
                &&& self.outcome is Some
                &&& (self.outcome matches Some(Ok(s)) ==> self.is_summary(s, s.wrote))
                &&& self.mismatches <= (self.entry.source@.len() as int) * (self.retry_times as int)
                &&& (self.outcome matches Some(Err(DownloadError::ChecksumMismatch(_)))
                    && self.only_mismatch_failures) ==> self.mismatches == (
                self.entry.source@.len() as int) * (self.retry_times as int)
            },
        }
    }

    /// The events the machine can take next.
    pub open spec fn expects(&self, ev: DownloadEvent) -> bool {
        match self.phase {
            JobPhase::Created => false,
            JobPhase::CheckingExisting => ev is Existing,
            JobPhase::CheckingPartial { .. } => ev is Partial,
            JobPhase::Connecting { .. } => ev is Started || ev is NotFound || ev is TransportFailed
                || ev is IoFailed,
            JobPhase::Streaming { .. } => ev is Chunk || ev is Finished || ev is TransportFailed
                || ev is IoFailed,
            JobPhase::Settled => false,
        }
    }

    /// Builds the job for `entry` at position `index` of the batch of
    /// `total` entries.
    pub fn new(entry: DownloadEntry, index: usize, total: usize, retry_times: usize) -> (r: Self)
        requires
            retry_times >= 1,
            (entry.source@.len() as int) * (retry_times as int) <= usize::MAX as int,
            index < usize::MAX,
        ensures
            r.wf(),
            r.phase == JobPhase::Created,
            r.entry == entry,
            r.index == index,
            r.retry_times == retry_times,
            r.transferred == 0,
            r.mismatches == 0,
            r.only_mismatch_failures,
    {
        SingleDownloader {
            entry,
            index,
            retry_times,
            position: (index + 1, total),
            phase: JobPhase::Created,
            validator: None,
            content: Ghost(Seq::empty()),
            transferred: 0,
            mismatches: 0,
            only_mismatch_failures: true,
            outcome: None,
        }
    }

    /// What beginning source `src`, attempt `attempt` leaves behind.
    pub open spec fn begin_post(o: Self, n: Self, act: DownloadAction, src: int, attempt: int) -> bool {
        let s = o.entry.source@[src];
        if s.source_type is Http && !valid_http_url(s.url@) {
            &&& n.phase == JobPhase::Settled
            &&& act == DownloadAction::Settled
            &&& n.outcome matches Some(Err(DownloadError::InvalidURL(u))) && u@ == s.url@
        } else if s.source_type is Http && o.entry.allow_resume && attempt == 1 {
            &&& n.phase == (JobPhase::CheckingPartial { src: src as usize, attempt: attempt as usize })
            &&& act == DownloadAction::QueryPartial
            &&& n.outcome is None
        } else {
            &&& n.phase == (JobPhase::Connecting { src: src as usize, attempt: attempt as usize })
            &&& act == (DownloadAction::Fetch { src: src as usize, resume_from: 0 })
            &&& n.content@ == Seq::<u8>::empty()
            &&& n.validator_matches()
            &&& n.outcome is None
        }
    }

    /// Configuration never changes once the job is built.
    pub open spec fn config_unchanged(o: Self, n: Self) -> bool {
        &&& n.entry == o.entry
        &&& n.index == o.index
        &&& n.retry_times == o.retry_times
        &&& n.position == o.position
    }

    /// Begins source `src`, attempt `attempt`: resets the attempt's
    /// verifier, validates a remote URL, and either asks for the partial
    /// file (first attempt of a resumable remote source) or starts the
    /// transfer from scratch.
    fn begin<P: DownloadProgressControl>(
        &mut self,
        src: usize,
        attempt: usize,
        progress: &P,
    ) -> (act: DownloadAction)
        requires
            old(self).retry_times >= 1,
            (old(self).entry.source@.len() as int) * (old(self).retry_times as int)
                <= usize::MAX as int,
            old(self).outcome_spec() is None,
            old(self).at_valid_position(src as int, attempt as int),
            old(self).mismatch_count_ok(src as int, attempt as int),
        ensures
            final(self).wf(),
            Self::config_unchanged(*old(self), *final(self)),
            Self::begin_post(*old(self), *final(self), act, src as int, attempt as int),
            final(self).transferred == old(self).transferred,
            final(self).mismatches == old(self).mismatches,
            final(self).only_mismatch_failures == old(self).only_mismatch_failures,
    {
        proof {
            let len = self.entry.source@.len() as int;
            let rt = self.retry_times as int;
            assert((src as int) * rt + ((attempt as int) - 1) <= len * rt) by (nonlinear_arith)
                requires
                    0 <= (src as int) < len,
                    1 <= (attempt as int),
                    (attempt as int) <= rt,
            ;
        }
        let is_http = match &self.entry.source[src].source_type {
            crate::download::DownloadSourceType::Http { .. } => true,
            crate::download::DownloadSourceType::Local(_) => false,
        };
        if is_http {
            let url_ok = {
                let u = self.entry.source[src].url.as_str();
                str_starts_with(u, "http://") || str_starts_with(u, "https://")
            };
            if !url_ok {
                let url = self.entry.source[src].url.clone();
                self.validator = None;
                self.phase = JobPhase::Settled;
                self.outcome = Some(Err(DownloadError::InvalidURL(url)));
                return DownloadAction::Settled;
            }
        }
        progress.new_progress_spinner(self.index, self.entry.filename.as_str());
        if is_http && self.entry.allow_resume && attempt == 1 {
            self.validator = None;
            self.content = Ghost(Seq::empty());
            self.phase = JobPhase::CheckingPartial { src, attempt };
            DownloadAction::QueryPartial
        } else {
            self.validator = match &self.entry.hash {
                Some(h) => Some(h.get_validator()),
                None => None,
            };
            self.content = Ghost(Seq::empty());
            self.phase = JobPhase::Connecting { src, attempt };
            DownloadAction::Fetch { src, resume_from: 0 }
        }
    }

    /// What starting the job leaves behind: an entry without sources fails
    /// at once; an entry with an expected digest first has the existing
    /// destination checked; anything else begins its first source.
    pub open spec fn start_post(o: Self, n: Self, act: DownloadAction) -> bool {
        &&& n.transferred == 0
        &&& n.mismatches == 0
        &&& n.only_mismatch_failures
        &&& o.entry.source@.len() == 0 ==> {
            &&& n.phase == JobPhase::Settled
            &&& act == DownloadAction::Settled
            &&& n.outcome == Some(Err::<Summary, DownloadError>(DownloadError::EmptySources))
        }
        &&& o.entry.source@.len() > 0 && o.entry.hash is Some ==> {
            &&& n.phase == JobPhase::CheckingExisting
            &&& act == DownloadAction::CheckExisting
        }
        &&& o.entry.source@.len() > 0 && o.entry.hash is None ==> Self::begin_post(o, n, act, 0, 1)
        &&& (act == DownloadAction::Settled) <==> (n.phase is Settled)
    }

    /// Starts the job.  An entry without sources fails at once; an entry
    /// with an expected digest first has the existing destination checked,
    /// so a run over an already-correct directory transfers nothing.
    pub fn start<P: DownloadProgressControl>(&mut self, progress: &P) -> (act: DownloadAction)
        requires
            old(self).wf(),
            old(self).phase == JobPhase::Created,
        ensures
            final(self).wf(),
            Self::config_unchanged(*old(self), *final(self)),
            Self::start_post(*old(self), *final(self), act),
    {
        if self.entry.source.len() == 0 {
            self.phase = JobPhase::Settled;
            self.outcome = Some(Err(DownloadError::EmptySources));
            return DownloadAction::Settled;
        }
        if self.entry.hash.is_some() {
            self.phase = JobPhase::CheckingExisting;
            return DownloadAction::CheckExisting;
        }
        self.begin(0, 1, progress)
    }

    /// Counters after a step: transferred bytes grow by `dt` (saturating),
    /// the mismatch count by `dm`, and the only-mismatch flag survives only
    /// when `kept`.
    pub open spec fn counters_post(o: Self, n: Self, dt: int, dm: int, kept: bool) -> bool {
        &&& n.transferred == sat_add_u64(o.transferred, dt)
        &&& n.mismatches == o.mismatches + dm
        &&& n.only_mismatch_failures == (o.only_mismatch_failures && kept)
    }

    /// Whether a failure at source `src`, attempt `attempt` ends the job:
    /// no retry remains on this source and no further source remains.
    pub open spec fn is_terminal_failure(o: Self, src: int, attempt: int, retry_same: bool) -> bool {
        &&& !(retry_same && attempt < o.retry_times)
        &&& !(src + 1 < o.entry.source@.len())
    }

    /// Where a failed attempt leads: the same source again while budget
    /// remains (when the failure kind retries), else the next source, else
    /// the job settles.
    pub open spec fn advance_post(
        o: Self,
        n: Self,
        act: DownloadAction,
        src: int,
        attempt: int,
        retry_same: bool,
    ) -> bool {
        if retry_same && attempt < o.retry_times {
            Self::begin_post(o, n, act, src, attempt + 1)
        } else if src + 1 < o.entry.source@.len() {
            Self::begin_post(o, n, act, src + 1, 1)
        } else {
            &&& n.phase == JobPhase::Settled
            &&& act == DownloadAction::Settled
        }
    }

    /// A transport failure retries this source while budget remains, then
    /// falls back, then ends the job with [`DownloadError::TransportError`].
    pub open spec fn transport_failed_post(
        o: Self,
        n: Self,
        act: DownloadAction,
        src: int,
        attempt: int,
        error: Seq<char>,
    ) -> bool {
        &&& Self::advance_post(o, n, act, src, attempt, true)
        &&& Self::counters_post(o, n, 0, 0, false)
        &&& Self::is_terminal_failure(o, src, attempt, true) ==> {
            &&& n.outcome matches Some(Err(DownloadError::TransportError(t)))
            &&& t@ == error
        }
    }

    /// A local I/O failure falls straight back to the next source, and ends
    /// the job with [`DownloadError::IOError`] when none remains.
    pub open spec fn io_failed_post(
        o: Self,
        n: Self,
        act: DownloadAction,
        src: int,
        attempt: int,
        error: Seq<char>,
    ) -> bool {
        &&& Self::advance_post(o, n, act, src, attempt, false)
        &&& Self::counters_post(o, n, 0, 0, false)
        &&& Self::is_terminal_failure(o, src, attempt, false) ==> {
            &&& n.outcome matches Some(Err(DownloadError::IOError(p, t)))
            &&& p@ == o.entry.dest_path_spec()
            &&& t@ == error
        }
    }

    /// The whole transition relation of the machine, one case per accepted
    /// state/event pair.
    pub open spec fn step_post(o: Self, ev: DownloadEvent, n: Self, act: DownloadAction) -> bool {
        match o.phase {
            JobPhase::CheckingExisting => match ev {
                DownloadEvent::Existing { verified } => if verified {
                    &&& n.phase == JobPhase::Settled
                    &&& act == DownloadAction::Settled
                    &&& n.outcome matches Some(Ok(s)) && o.is_summary(s, false)
                    &&& Self::counters_post(o, n, 0, 0, true)
                } else {
                    &&& Self::begin_post(o, n, act, 0, 1)
                    &&& Self::counters_post(o, n, 0, 0, true)
                },
                _ => false,
            },
            JobPhase::CheckingPartial { src, attempt } => match ev {
                DownloadEvent::Partial { data } => {
                    let seed = match data {
                        Some(d) => d@,
                        None => Seq::<u8>::empty(),
                    };
                    &&& n.phase == (JobPhase::Connecting { src, attempt })
                    &&& act == (DownloadAction::Fetch { src, resume_from: seed.len() as u64 })
                    &&& n.content@ == seed
                    &&& n.validator_matches()
                    &&& n.outcome is None
                    &&& Self::counters_post(o, n, 0, 0, true)
                },
                _ => false,
            },
            JobPhase::Connecting { src, attempt } => match ev {
                DownloadEvent::Started => {
                    &&& n == (Self { phase: JobPhase::Streaming { src, attempt }, ..o })
                    &&& act == DownloadAction::Receive
                },
                DownloadEvent::NotFound => {
                    &&& Self::advance_post(o, n, act, src as int, attempt as int, false)
                    &&& Self::counters_post(o, n, 0, 0, false)
                    &&& Self::is_terminal_failure(o, src as int, attempt as int, false) ==> {
                        &&& n.outcome matches Some(Err(DownloadError::NotFound(u)))
                        &&& u@ == o.entry.source@[src as int].url@
                    }
                },
                DownloadEvent::TransportFailed { error } => Self::transport_failed_post(
                    o,
                    n,
                    act,
                    src as int,
                    attempt as int,
                    error@,
                ),
                DownloadEvent::IoFailed { error } => Self::io_failed_post(
                    o,
                    n,
                    act,
                    src as int,
                    attempt as int,
                    error@,
                ),
                _ => false,
            },
            JobPhase::Streaming { src, attempt } => match ev {
                DownloadEvent::Chunk { data } => {
                    &&& n.phase == o.phase
                    &&& act == DownloadAction::Receive
                    &&& n.content@ == o.content@ + data@
                    &&& n.validator_matches()
                    &&& n.outcome is None
                    &&& Self::counters_post(o, n, data@.len() as int, 0, true)
                },
                DownloadEvent::Finished => match o.entry.hash {
                    None => {
                        &&& n.phase == JobPhase::Settled
                        &&& act == DownloadAction::Settled
                        &&& n.outcome matches Some(Ok(s)) && o.is_summary(s, true)
                        &&& Self::counters_post(o, n, 0, 0, true)
                    },
                    Some(h) => if h.digest_of(o.content@) == h.digest() {
                        &&& n.phase == JobPhase::Settled
                        &&& act == DownloadAction::Settled
                        &&& n.outcome matches Some(Ok(s)) && o.is_summary(s, true)
                        &&& Self::counters_post(o, n, 0, 0, true)
                    } else {
                        &&& Self::advance_post(o, n, act, src as int, attempt as int, true)
                        &&& Self::counters_post(o, n, 0, 1, true)
                        &&& Self::is_terminal_failure(o, src as int, attempt as int, true) ==> {
                            &&& n.outcome matches Some(Err(DownloadError::ChecksumMismatch(f)))
                            &&& f@ == o.entry.filename@
                        }
                    },
                },
                DownloadEvent::TransportFailed { error } => Self::transport_failed_post(
                    o,
                    n,
                    act,
                    src as int,
                    attempt as int,
                    error@,
                ),
                DownloadEvent::IoFailed { error } => Self::io_failed_post(
                    o,
                    n,
                    act,
                    src as int,
                    attempt as int,
                    error@,
                ),
                _ => false,
            },
            _ => false,
        }
    }

    /// Handles one failed attempt: retry the same source while the failure
    /// kind allows it and budget remains, else fall back to the next source
    /// (signalling the observer), else settle with `err`.
    fn advance_failure<P: DownloadProgressControl>(
        &mut self,
        src: usize,
        attempt: usize,
        retry_same: bool,
        err: DownloadError,
        progress: &P,
    ) -> (act: DownloadAction)
        requires
            old(self).retry_times >= 1,
            (old(self).entry.source@.len() as int) * (old(self).retry_times as int)
                <= usize::MAX as int,
            old(self).outcome_spec() is None,
            old(self).at_valid_position(src as int, attempt as int),
            retry_same && (attempt as int) < old(self).retry_times ==> old(self).mismatch_count_ok(
                src as int,
                attempt as int + 1,
            ),
            !(retry_same && (attempt as int) < old(self).retry_times) && (src as int) + 1 < old(
                self,
            ).entry.source@.len() ==> old(self).mismatch_count_ok(src as int + 1, 1),
            Self::is_terminal_failure(*old(self), src as int, attempt as int, retry_same) ==> {
                &&& old(self).mismatches <= (old(self).entry.source@.len() as int) * (old(
                    self,
                ).retry_times as int)
                &&& (err matches DownloadError::ChecksumMismatch(_)
                    && old(self).only_mismatch_failures) ==> old(self).mismatches == (old(
                    self,
                ).entry.source@.len() as int) * (old(self).retry_times as int)
            },
        ensures
            final(self).wf(),
            Self::config_unchanged(*old(self), *final(self)),
            Self::advance_post(*old(self), *final(self), act, src as int, attempt as int, retry_same),
            Self::is_terminal_failure(*old(self), src as int, attempt as int, retry_same)
                ==> final(self).outcome == Some(Err::<Summary, DownloadError>(err)),
            final(self).transferred == old(self).transferred,
            final(self).mismatches == old(self).mismatches,
            final(self).only_mismatch_failures == old(self).only_mismatch_failures,
    {
        proof {
            let len = self.entry.source@.len() as int;
            let rt = self.retry_times as int;
            assert(len <= len * rt) by (nonlinear_arith)
                requires
                    rt >= 1,
                    len >= 0,
            ;
        }
        if retry_same && attempt < self.retry_times {
            self.begin(src, attempt + 1, progress)
        } else if src + 1 < self.entry.source.len() {
            progress.failed_to_get_source_next_url(self.index, err.brief());
            self.begin(src + 1, 1, progress)
        } else {
            self.validator = None;
            self.phase = JobPhase::Settled;
            self.outcome = Some(Err(err));
            DownloadAction::Settled
        }
    }

    /// Advances the machine by one event, reporting to the observer along
    /// the way, and says what to do next.
    pub fn step<P: DownloadProgressControl>(&mut self, ev: DownloadEvent, progress: &P) -> (act:
        DownloadAction)
        requires
            old(self).wf(),
            old(self).expects(ev),
        ensures
            final(self).wf(),
            Self::config_unchanged(*old(self), *final(self)),
            Self::step_post(*old(self), ev, *final(self), act),
            final(self).transferred >= old(self).transferred,
            (act == DownloadAction::Settled) <==> (final(self).phase is Settled),
    {
        match self.phase {
            JobPhase::CheckingExisting => match ev {
                DownloadEvent::Existing { verified } => {
                    if verified {
                        progress.download_done(self.index, self.entry.filename.as_str());
                        progress.progress_done(self.index);
                        let s = Summary {
                            filename: self.entry.filename.clone(),
                            wrote: false,
                            count: self.index,
                            context: clone_opt_string(&self.entry.msg),
                        };
                        self.phase = JobPhase::Settled;
                        self.outcome = Some(Ok(s));
                        DownloadAction::Settled
                    } else {
                        self.begin(0, 1, progress)
                    }
                },
                _ => unreached(),
            },
            JobPhase::CheckingPartial { src, attempt } => match ev {
                DownloadEvent::Partial { data } => {
                    let seed: Vec<u8> = match data {
                        Some(d) => d,
                        None => Vec::new(),
                    };
                    let resume_from = seed.len() as u64;
                    let mut v = match &self.entry.hash {
                        Some(h) => Some(h.get_validator()),
                        None => None,
                    };
                    match &mut v {
                        Some(vv) => vv.update(seed.as_slice()),
                        None => {},
                    }
                    self.validator = v;
                    self.content = Ghost(seed@);
                    self.phase = JobPhase::Connecting { src, attempt };
                    DownloadAction::Fetch { src, resume_from }
                },
                _ => unreached(),
            },
            JobPhase::Connecting { src, attempt } => match ev {
                DownloadEvent::Started => {
                    self.phase = JobPhase::Streaming { src, attempt };
                    DownloadAction::Receive
                },
                DownloadEvent::NotFound => {
                    proof {
                        lemma_budget_bounds(
                            self.entry.source@.len() as int,
                            self.retry_times as int,
                            src as int,
                            attempt as int,
                        );
                    }
                    self.only_mismatch_failures = false;
                    let url = self.entry.source[src].url.clone();
                    let e = DownloadError::NotFound(url);
                    self.advance_failure(src, attempt, false, e, progress)
                },
                DownloadEvent::TransportFailed { error } => {
                    proof {
                        lemma_budget_bounds(
                            self.entry.source@.len() as int,
                            self.retry_times as int,
                            src as int,
                            attempt as int,
                        );
                    }
                    self.only_mismatch_failures = false;
                    let e = DownloadError::TransportError(error);
                    self.advance_failure(src, attempt, true, e, progress)
                },
                DownloadEvent::IoFailed { error } => {
                    proof {
                        lemma_budget_bounds(
                            self.entry.source@.len() as int,
                            self.retry_times as int,
                            src as int,
                            attempt as int,
                        );
                    }
                    self.only_mismatch_failures = false;
                    let path = self.entry.dest_path();
                    let e = DownloadError::IOError(path, error);
                    self.advance_failure(src, attempt, false, e, progress)
                },
                _ => unreached(),
            },
            JobPhase::Streaming { src, attempt } => match ev {
                DownloadEvent::Chunk { data } => {
                    let ghost oldc = self.content@;
                    match &mut self.validator {
                        Some(v) => v.update(data.as_slice()),
                        None => {},
                    }
                    self.content = Ghost(oldc + data@);
                    self.transferred = sat_add(self.transferred, data.len() as u64);
                    progress.progress_inc(self.index, data.len() as u64);
                    DownloadAction::Receive
                },
                DownloadEvent::Finished => {
                    let ok = match &self.validator {
                        Some(v) => v.finish(),
                        None => true,
                    };
                    if ok {
                        progress.download_done(self.index, self.entry.filename.as_str());
                        progress.progress_done(self.index);
                        let s = Summary {
                            filename: self.entry.filename.clone(),
                            wrote: true,
                            count: self.index,
                            context: clone_opt_string(&self.entry.msg),
                        };
                        self.validator = None;
                        self.phase = JobPhase::Settled;
                        self.outcome = Some(Ok(s));
                        proof {
                            lemma_budget_bounds(
                                self.entry.source@.len() as int,
                                self.retry_times as int,
                                src as int,
                                attempt as int,
                            );
                        }
                        DownloadAction::Settled
                    } else {
                        proof {
                            lemma_budget_bounds(
                                self.entry.source@.len() as int,
                                self.retry_times as int,
                                src as int,
                                attempt as int,
                            );
                            assert((src as int) * (self.retry_times as int) + (
                            self.retry_times as int) == ((src as int) + 1) * (
                            self.retry_times as int)) by (nonlinear_arith);
                        }
                        self.mismatches = self.mismatches + 1;
                        progress.checksum_mismatch_retry(
                            self.index,
                            self.entry.filename.as_str(),
                            attempt,
                        );
                        let f = self.entry.filename.clone();
                        let e = DownloadError::ChecksumMismatch(f);
                        self.advance_failure(src, attempt, true, e, progress)
                    }
                },
                DownloadEvent::TransportFailed { error } => {
                    proof {
                        lemma_budget_bounds(
                            self.entry.source@.len() as int,
                            self.retry_times as int,
                            src as int,
                            attempt as int,
                        );
                    }
                    self.only_mismatch_failures = false;
                    let e = DownloadError::TransportError(error);
                    self.advance_failure(src, attempt, true, e, progress)
                },
                DownloadEvent::IoFailed { error } => {
                    proof {
                        lemma_budget_bounds(
                            self.entry.source@.len() as int,
                            self.retry_times as int,
                            src as int,
                            attempt as int,
                        );
                    }
                    self.only_mismatch_failures = false;
                    let path = self.entry.dest_path();
                    let e = DownloadError::IOError(path, error);
                    self.advance_failure(src, attempt, false, e, progress)
                },
                _ => unreached(),
            },
            _ => unreached(),
        }
    }
}

/// A job whose every attempt failed by checksum mismatch settles with the
/// mismatch error only after exactly one retry-budget's worth of attempts
/// on every source — not more, not fewer — and `mismatches` counts the
/// retry signal sent to the observer for each of them.
pub proof fn lemma_mismatch_retries_exhaust_budget(j: SingleDownloader)
    requires
        j.wf(),
        j.phase is Settled,
        j.outcome matches Some(Err(DownloadError::ChecksumMismatch(_))),
        j.only_mismatch_failures,
    ensures
        j.mismatches == j.entry.source@.len() * j.retry_times,
{
}

/// Seeding a fresh validator with the true byte-prefix already on disk
/// and then receiving the remainder feeds it exactly the whole artifact:
/// a resumed download is verified against the same contents as one
/// transferred from scratch.
pub proof fn lemma_resume_prefix_feeds_whole(full: Seq<u8>, k: int)
    requires
        0 <= k <= full.len(),
    ensures
        Seq::<u8>::empty() + full.take(k) + full.skip(k) == full,
{
    assert(Seq::<u8>::empty() + full.take(k) + full.skip(k) =~= full);
}

/// Attempts consumed at a valid position stay below the whole budget.
proof fn lemma_budget_bounds(len: int, rt: int, src: int, attempt: int)
    requires
        0 <= src < len,
        1 <= attempt,
        attempt <= rt,
    ensures
        src * rt + (attempt - 1) < (src + 1) * rt,
        (src + 1) * rt <= len * rt,
{
    assert(src * rt + (attempt - 1) < (src + 1) * rt) by (nonlinear_arith)
        requires
            0 <= src,
            1 <= attempt,
            attempt <= rt,
    ;
    assert((src + 1) * rt <= len * rt) by (nonlinear_arith)
        requires
            src < len,
            rt >= 1,
    ;
}

/// `a + b` capped at the largest counter value.
pub(crate) fn sat_add(a: u64, b: u64) -> (r: u64)
    ensures
        r == sat_add_u64(a, b as int),
{
    match a.checked_add(b) {
        Some(v) => v,
        None => u64::MAX,
    }
}

} // verus!
