use std::cell::RefCell;

use oma::checksum::Checksum;
use oma::download::{
    CompressFile, DownloadEntry, DownloadError, DownloadSource, DownloadSourceType,
};
use oma::progress::DownloadProgressControl;
use oma::single::{DownloadAction, DownloadEvent, SingleDownloader};

struct RecordingObserver {
    mismatch_retries: RefCell<Vec<(usize, String, usize)>>,
    fallbacks: RefCell<Vec<(usize, String)>>,
    done: RefCell<Vec<usize>>,
}

impl RecordingObserver {
    fn new() -> Self {
        RecordingObserver {
            mismatch_retries: RefCell::new(Vec::new()),
            fallbacks: RefCell::new(Vec::new()),
            done: RefCell::new(Vec::new()),
        }
    }
}

impl DownloadProgressControl for RecordingObserver {
    fn checksum_mismatch_retry(&self, index: usize, filename: &str, times: usize) {
        self.mismatch_retries.borrow_mut().push((index, filename.to_string(), times));
    }
    fn global_progress_set(&self, _num: u64) {}
    fn progress_done(&self, index: usize) {
        self.done.borrow_mut().push(index);
    }
    fn new_progress_spinner(&self, _index: usize, _msg: &str) {}
    fn new_progress_bar(&self, _index: usize, _msg: &str, _size: u64) {}
    fn progress_inc(&self, _index: usize, _num: u64) {}
    fn progress_set(&self, _index: usize, _num: u64) {}
    fn failed_to_get_source_next_url(&self, index: usize, err: &str) {
        self.fallbacks.borrow_mut().push((index, err.to_string()));
    }
    fn download_done(&self, _index: usize, _msg: &str) {}
    fn all_done(&self) {}
    fn new_global_progress_bar(&self, _total_size: u64) {}
}

fn http_source(url: &str) -> DownloadSource {
    DownloadSource {
        url: url.to_string(),
        source_type: DownloadSourceType::Http { auth: None },
    }
}

fn entry(sources: Vec<DownloadSource>, hash: Option<Checksum>, allow_resume: bool) -> DownloadEntry {
    DownloadEntry {
        source: sources,
        filename: "artifact.bin".to_string(),
        dir: "/tmp/dl".to_string(),
        hash,
        allow_resume,
        msg: Some("an artifact".to_string()),
        file_type: CompressFile::Nothing,
    }
}

/// Streams `body` through a job that is expected to sit at a `Fetch`
/// action, and returns the action after the body ended.
fn stream_body(
    job: &mut SingleDownloader,
    body: &[u8],
    chunk: usize,
    obs: &RecordingObserver,
) -> DownloadAction {
    let act = job.step(DownloadEvent::Started, obs);
    assert_eq!(act, DownloadAction::Receive);
    for piece in body.chunks(chunk.max(1)) {
        let act = job.step(DownloadEvent::Chunk { data: piece.to_vec() }, obs);
        assert_eq!(act, DownloadAction::Receive);
    }
    job.step(DownloadEvent::Finished, obs)
}

#[test]
fn empty_source_list_fails_structurally() {
    let obs = RecordingObserver::new();
    let mut job = SingleDownloader::new(entry(vec![], None, false), 0, 1, 3);
    let act = job.start(&obs);
    assert_eq!(act, DownloadAction::Settled);
    assert_eq!(job.outcome, Some(Err(DownloadError::EmptySources)));
}

#[test]
fn short_circuit_on_already_valid_destination() {
    let obs = RecordingObserver::new();
    let hash = Checksum::from_sha256_data(b"cached content");
    let mut job = SingleDownloader::new(
        entry(vec![http_source("http://m/a")], Some(hash), false),
        2,
        3,
        3,
    );
    let act = job.start(&obs);
    assert_eq!(act, DownloadAction::CheckExisting);
    let act = job.step(DownloadEvent::Existing { verified: true }, &obs);
    assert_eq!(act, DownloadAction::Settled);
    let summary = job.outcome.unwrap().unwrap();
    assert!(!summary.wrote);
    assert_eq!(summary.count, 2);
    assert_eq!(summary.filename, "artifact.bin");
    assert_eq!(summary.context.as_deref(), Some("an artifact"));
    assert_eq!(job.transferred, 0);
}

#[test]
fn plain_download_with_checksum_succeeds() {
    let obs = RecordingObserver::new();
    let body = b"fresh bytes from the mirror";
    let hash = Checksum::from_sha256_data(body);
    let mut job = SingleDownloader::new(
        entry(vec![http_source("http://m/a")], Some(hash), false),
        0,
        1,
        3,
    );
    let act = job.start(&obs);
    assert_eq!(act, DownloadAction::CheckExisting);
    let act = job.step(DownloadEvent::Existing { verified: false }, &obs);
    assert_eq!(act, DownloadAction::Fetch { src: 0, resume_from: 0 });
    let act = stream_body(&mut job, body, 5, &obs);
    assert_eq!(act, DownloadAction::Settled);
    let summary = job.outcome.unwrap().unwrap();
    assert!(summary.wrote);
    assert_eq!(job.transferred, body.len() as u64);
    assert_eq!(obs.mismatch_retries.borrow().len(), 0);
}

#[test]
fn download_without_checksum_succeeds_on_completion() {
    let obs = RecordingObserver::new();
    let mut job = SingleDownloader::new(
        entry(vec![http_source("http://m/a")], None, false),
        0,
        1,
        3,
    );
    let act = job.start(&obs);
    assert_eq!(act, DownloadAction::Fetch { src: 0, resume_from: 0 });
    let act = stream_body(&mut job, b"whatever arrives", 4, &obs);
    assert_eq!(act, DownloadAction::Settled);
    assert!(job.outcome.unwrap().unwrap().wrote);
}

#[test]
fn mismatch_retries_exactly_the_budget_and_signals_each() {
    let obs = RecordingObserver::new();
    let hash = Checksum::from_sha256_data(b"right content");
    let retry_times = 3;
    let mut job = SingleDownloader::new(
        entry(vec![http_source("http://m/a")], Some(hash), false),
        5,
        6,
        retry_times,
    );
    let mut act = job.start(&obs);
    assert_eq!(act, DownloadAction::CheckExisting);
    act = job.step(DownloadEvent::Existing { verified: false }, &obs);
    for attempt in 1..=retry_times {
        assert_eq!(act, DownloadAction::Fetch { src: 0, resume_from: 0 });
        act = stream_body(&mut job, b"wrong content", 64, &obs);
        let retries = obs.mismatch_retries.borrow();
        assert_eq!(retries.len(), attempt);
        assert_eq!(retries[attempt - 1], (5, "artifact.bin".to_string(), attempt));
    }
    assert_eq!(act, DownloadAction::Settled);
    assert_eq!(
        job.outcome,
        Some(Err(DownloadError::ChecksumMismatch("artifact.bin".to_string())))
    );
    assert_eq!(job.mismatches as usize, retry_times);
    assert!(job.only_mismatch_failures);
}

#[test]
fn mismatch_falls_back_to_next_source_after_budget() {
    let obs = RecordingObserver::new();
    let good = b"the real artifact";
    let hash = Checksum::from_sha256_data(good);
    let mut job = SingleDownloader::new(
        entry(
            vec![http_source("http://bad/a"), http_source("http://good/a")],
            Some(hash),
            false,
        ),
        0,
        1,
        2,
    );
    let mut act = job.start(&obs);
    act = job.step(DownloadEvent::Existing { verified: false }, &obs);
    for _ in 1..=2 {
        assert_eq!(act, DownloadAction::Fetch { src: 0, resume_from: 0 });
        act = stream_body(&mut job, b"corrupted", 8, &obs);
    }
    assert_eq!(act, DownloadAction::Fetch { src: 1, resume_from: 0 });
    assert_eq!(obs.fallbacks.borrow().len(), 1);
    act = stream_body(&mut job, good, 8, &obs);
    assert_eq!(act, DownloadAction::Settled);
    assert!(job.outcome.unwrap().unwrap().wrote);
    assert_eq!(obs.mismatch_retries.borrow().len(), 2);
}

#[test]
fn resumed_download_verifies_like_a_fresh_one() {
    let full = b"0123456789abcdefghij: one artifact, byte for byte".to_vec();
    let hash = Checksum::from_sha256_data(&full);
    let split = 17;

    // Resumed: a true byte-prefix already sits on disk.
    let obs = RecordingObserver::new();
    let mut resumed = SingleDownloader::new(
        entry(vec![http_source("http://m/a")], Some(hash.clone()), true),
        0,
        1,
        3,
    );
    let act = resumed.start(&obs);
    assert_eq!(act, DownloadAction::CheckExisting);
    let act = resumed.step(DownloadEvent::Existing { verified: false }, &obs);
    assert_eq!(act, DownloadAction::QueryPartial);
    let act = resumed.step(
        DownloadEvent::Partial { data: Some(full[..split].to_vec()) },
        &obs,
    );
    assert_eq!(act, DownloadAction::Fetch { src: 0, resume_from: split as u64 });
    let act = stream_body(&mut resumed, &full[split..], 7, &obs);
    assert_eq!(act, DownloadAction::Settled);
    assert!(resumed.outcome.unwrap().unwrap().wrote);
    // Only the remainder was transferred.
    assert_eq!(resumed.transferred, (full.len() - split) as u64);

    // From scratch: no partial file.
    let obs = RecordingObserver::new();
    let mut fresh = SingleDownloader::new(
        entry(vec![http_source("http://m/a")], Some(hash), true),
        0,
        1,
        3,
    );
    fresh.start(&obs);
    let act = fresh.step(DownloadEvent::Existing { verified: false }, &obs);
    assert_eq!(act, DownloadAction::QueryPartial);
    let act = fresh.step(DownloadEvent::Partial { data: None }, &obs);
    assert_eq!(act, DownloadAction::Fetch { src: 0, resume_from: 0 });
    let act = stream_body(&mut fresh, &full, 7, &obs);
    assert_eq!(act, DownloadAction::Settled);
    assert!(fresh.outcome.unwrap().unwrap().wrote);
}

#[test]
fn resume_rejects_a_false_prefix() {
    let full = b"correct content over the wire".to_vec();
    let hash = Checksum::from_sha256_data(&full);
    let obs = RecordingObserver::new();
    let mut job = SingleDownloader::new(
        entry(vec![http_source("http://m/a")], Some(hash), true),
        0,
        1,
        1,
    );
    job.start(&obs);
    job.step(DownloadEvent::Existing { verified: false }, &obs);
    let act = job.step(
        DownloadEvent::Partial { data: Some(b"garbage prefix".to_vec()) },
        &obs,
    );
    assert_eq!(act, DownloadAction::Fetch { src: 0, resume_from: 14 });
    let act = stream_body(&mut job, &full[14..], 9, &obs);
    assert_eq!(act, DownloadAction::Settled);
    assert_eq!(
        job.outcome,
        Some(Err(DownloadError::ChecksumMismatch("artifact.bin".to_string())))
    );
}

#[test]
fn not_found_falls_back_then_fails_terminally() {
    let obs = RecordingObserver::new();
    let mut job = SingleDownloader::new(
        entry(
            vec![http_source("http://a/x"), http_source("http://b/x")],
            None,
            false,
        ),
        0,
        1,
        3,
    );
    let act = job.start(&obs);
    assert_eq!(act, DownloadAction::Fetch { src: 0, resume_from: 0 });
    let act = job.step(DownloadEvent::NotFound, &obs);
    assert_eq!(act, DownloadAction::Fetch { src: 1, resume_from: 0 });
    assert_eq!(obs.fallbacks.borrow().len(), 1);
    let act = job.step(DownloadEvent::NotFound, &obs);
    assert_eq!(act, DownloadAction::Settled);
    assert_eq!(
        job.outcome,
        Some(Err(DownloadError::NotFound("http://b/x".to_string())))
    );
    assert!(!job.only_mismatch_failures);
}

#[test]
fn transport_failure_retries_same_source_then_fails() {
    let obs = RecordingObserver::new();
    let mut job = SingleDownloader::new(
        entry(vec![http_source("http://m/a")], None, false),
        0,
        1,
        2,
    );
    let act = job.start(&obs);
    assert_eq!(act, DownloadAction::Fetch { src: 0, resume_from: 0 });
    let act = job.step(
        DownloadEvent::TransportFailed { error: "timeout".to_string() },
        &obs,
    );
    assert_eq!(act, DownloadAction::Fetch { src: 0, resume_from: 0 });
    let act = job.step(
        DownloadEvent::TransportFailed { error: "refused".to_string() },
        &obs,
    );
    assert_eq!(act, DownloadAction::Settled);
    assert_eq!(
        job.outcome,
        Some(Err(DownloadError::TransportError("refused".to_string())))
    );
}

#[test]
fn io_failure_does_not_retry_the_same_source() {
    let obs = RecordingObserver::new();
    let mut job = SingleDownloader::new(
        entry(
            vec![
                DownloadSource {
                    url: "/srv/mirror/a".to_string(),
                    source_type: DownloadSourceType::Local(false),
                },
                http_source("http://m/a"),
            ],
            None,
            false,
        ),
        0,
        1,
        3,
    );
    let act = job.start(&obs);
    assert_eq!(act, DownloadAction::Fetch { src: 0, resume_from: 0 });
    let act = job.step(
        DownloadEvent::IoFailed { error: "permission denied".to_string() },
        &obs,
    );
    // Straight to the next source, no same-source retry.
    assert_eq!(act, DownloadAction::Fetch { src: 1, resume_from: 0 });
    let act = stream_body(&mut job, b"served over http instead", 6, &obs);
    assert_eq!(act, DownloadAction::Settled);
    assert!(job.outcome.unwrap().is_ok());
}

#[test]
fn io_failure_on_the_last_source_is_terminal() {
    let obs = RecordingObserver::new();
    let mut job = SingleDownloader::new(
        entry(
            vec![DownloadSource {
                url: "/srv/mirror/a".to_string(),
                source_type: DownloadSourceType::Local(false),
            }],
            None,
            false,
        ),
        0,
        1,
        3,
    );
    let act = job.start(&obs);
    assert_eq!(act, DownloadAction::Fetch { src: 0, resume_from: 0 });
    let act = job.step(
        DownloadEvent::IoFailed { error: "no such file".to_string() },
        &obs,
    );
    assert_eq!(act, DownloadAction::Settled);
    assert_eq!(
        job.outcome,
        Some(Err(DownloadError::IOError(
            "/tmp/dl/artifact.bin".to_string(),
            "no such file".to_string(),
        )))
    );
}

#[test]
fn invalid_url_fails_immediately_without_consuming_budget() {
    let obs = RecordingObserver::new();
    let mut job = SingleDownloader::new(
        entry(vec![http_source("ftp://m/a")], None, false),
        0,
        1,
        3,
    );
    let act = job.start(&obs);
    assert_eq!(act, DownloadAction::Settled);
    assert_eq!(
        job.outcome,
        Some(Err(DownloadError::InvalidURL("ftp://m/a".to_string())))
    );
    assert_eq!(obs.mismatch_retries.borrow().len(), 0);
    assert_eq!(obs.fallbacks.borrow().len(), 0);
}
