//! The capability interface through which download jobs report progress.
//!
//! One observer instance serves a whole batch; calls are synchronous and
//! fire-and-forget, so the methods promise nothing and an implementation
//! must not block materially.

use vstd::prelude::*;

verus! {

/// Progress reporting for a batch of download jobs.  `index` is the job's
/// position in the batch.
pub trait DownloadProgressControl {
    /// A fetched body failed verification and the job retries the same
    /// source; `times` is the attempt that failed.
    fn checksum_mismatch_retry(&self, index: usize, filename: &str, times: usize);

    /// The aggregate byte counter over all jobs reached `num`.
    fn global_progress_set(&self, num: u64);

    /// The job's own progress display is finished.
    fn progress_done(&self, index: usize);

    /// The job starts transferring without a known size.
    fn new_progress_spinner(&self, index: usize, msg: &str);

    /// The job starts transferring `size` known bytes.
    fn new_progress_bar(&self, index: usize, msg: &str, size: u64);

    /// The job transferred `num` more bytes.
    fn progress_inc(&self, index: usize, num: u64);

    /// The job's progress is exactly `num` bytes.
    fn progress_set(&self, index: usize, num: u64);

    /// A source failed and the job falls back to its next source.
    fn failed_to_get_source_next_url(&self, index: usize, err: &str);

    /// The job settled successfully.
    fn download_done(&self, index: usize, msg: &str);

    /// Every job of the batch has settled.
    fn all_done(&self);

    /// An aggregate bar over the whole batch of `total_size` bytes begins.
    fn new_global_progress_bar(&self, total_size: u64);
}

} // verus!
