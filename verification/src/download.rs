//! Data describing one requested artifact and the outcome of fetching it:
//! candidate sources, the entry that groups them, the per-entry summary and
//! the error taxonomy of the download subsystem.

use vstd::prelude::*;

use core::cmp::Ordering;

use crate::checksum::{Checksum, ChecksumError};
use crate::strutil::str_eq;
use vstd::std_specs::cmp::PartialOrdSpec;

verus! {

/// Why a download job failed.
#[derive(Debug, Clone, PartialEq, Eq)]
pub enum DownloadError {
    /// Every retry on the last source still mismatched; carries the filename.
    ChecksumMismatch(String),
    /// A local read, write or open failed; carries the path and the cause.
    IOError(String, String),
    /// The transport failed to connect, timed out or reported a non-success
    /// status other than "not found"; carries the cause.
    TransportError(String),
    /// The upstream artifact is missing; carries the URL.  Distinguished so
    /// a caller can reconcile instead of treating the batch as broken.
    NotFound(String),
    /// A source URL is not well formed.  Structural: fails at once.
    InvalidURL(String),
    /// The entry names no source at all.  Structural: fails at once.
    EmptySources,
    /// An expected digest could not be parsed from configuration.
    ChecksumError(ChecksumError),
}

impl DownloadError {
    /// A short cause for display: the path, URL, filename or cause the
    /// variant carries.
    pub fn brief(&self) -> (r: &str)
        ensures
            match self {
                DownloadError::ChecksumMismatch(s) => r@ == s@,
                DownloadError::IOError(_, c) => r@ == c@,
                DownloadError::TransportError(c) => r@ == c@,
                DownloadError::NotFound(u) => r@ == u@,
                DownloadError::InvalidURL(u) => r@ == u@,
                DownloadError::EmptySources => r@ == "empty download source list"@,
                DownloadError::ChecksumError(_) => r@ == "invalid expected checksum"@,
            },
    {
        match self {
            DownloadError::ChecksumMismatch(s) => s.as_str(),
            DownloadError::IOError(_, c) => c.as_str(),
            DownloadError::TransportError(c) => c.as_str(),
            DownloadError::NotFound(u) => u.as_str(),
            DownloadError::InvalidURL(u) => u.as_str(),
            DownloadError::EmptySources => "empty download source list",
            DownloadError::ChecksumError(_) => "invalid expected checksum",
        }
    }
}

/// The outcome of one download job.
pub type DownloadResult<T> = Result<T, DownloadError>;

/// Alternative compressed encodings of one logical artifact, ordered by
/// preference: `Zstd > Xz > Gzip > Bz2 > Nothing`.  Callers sort candidate
/// encodings by this order and request only the best one.
#[derive(Debug, Clone, Copy, Default, PartialEq, Eq, Structural, Ord)]
pub enum CompressFile {
    #[default]
    Nothing,
    Bz2,
    Gzip,
    Xz,
    Zstd,
}

impl CompressFile {
    /// Position in the preference order, `Nothing` lowest.
    pub open spec fn rank(&self) -> int {
        match self {
            CompressFile::Nothing => 0,
            CompressFile::Bz2 => 1,
            CompressFile::Gzip => 2,
            CompressFile::Xz => 3,
            CompressFile::Zstd => 4,
        }
    }

    fn rank_exec(&self) -> (r: u8)
        ensures
            r as int == self.rank(),
    {
        match self {
            CompressFile::Nothing => 0,
            CompressFile::Bz2 => 1,
            CompressFile::Gzip => 2,
            CompressFile::Xz => 3,
            CompressFile::Zstd => 4,
        }
    }
}

impl PartialOrd for CompressFile {
    fn partial_cmp(&self, other: &Self) -> (r: Option<Ordering>) {
        let a = self.rank_exec();
        let b = other.rank_exec();
        if a < b {
            Some(Ordering::Less)
        } else if a == b {
            Some(Ordering::Equal)
        } else {
            Some(Ordering::Greater)
        }
    }
}

impl vstd::std_specs::cmp::PartialOrdSpecImpl for CompressFile {
    open spec fn obeys_partial_cmp_spec() -> bool {
        true
    }

    open spec fn partial_cmp_spec(&self, other: &Self) -> Option<Ordering> {
        if self.rank() < other.rank() {
            Some(Ordering::Less)
        } else if self.rank() == other.rank() {
            Some(Ordering::Equal)
        } else {
            Some(Ordering::Greater)
        }
    }
}

/// The encoding preference is a strict total order: comparison never fails,
/// equality holds only between equal encodings, the order is asymmetric and
/// transitive, and `Zstd` outranks `Xz` outranks `Gzip` outranks `Bz2`
/// outranks `Nothing`.
pub proof fn lemma_compress_order_strict_total(a: CompressFile, b: CompressFile, c: CompressFile)
    ensures
        a.partial_cmp_spec(&b) is Some,
        a.partial_cmp_spec(&a) == Some(Ordering::Equal),
        a.partial_cmp_spec(&b) == Some(Ordering::Equal) ==> a == b,
        a.partial_cmp_spec(&b) == Some(Ordering::Less) <==> b.partial_cmp_spec(&a) == Some(
            Ordering::Greater,
        ),
        a.partial_cmp_spec(&b) == Some(Ordering::Less) && b.partial_cmp_spec(&c) == Some(
            Ordering::Less,
        ) ==> a.partial_cmp_spec(&c) == Some(Ordering::Less),
        CompressFile::Zstd.rank() > CompressFile::Xz.rank() > CompressFile::Gzip.rank()
            > CompressFile::Bz2.rank() > CompressFile::Nothing.rank(),
{
}

impl From<&str> for CompressFile {
    /// Maps a file extension to its encoding; anything unknown is `Nothing`.
    fn from(s: &str) -> Self {
        if str_eq(s, "xz") {
            CompressFile::Xz
        } else if str_eq(s, "gz") {
            CompressFile::Gzip
        } else if str_eq(s, "bz2") {
            CompressFile::Bz2
        } else if str_eq(s, "zst") {
            CompressFile::Zstd
        } else {
            CompressFile::Nothing
        }
    }
}

impl vstd::std_specs::convert::FromSpecImpl<&str> for CompressFile {
    open spec fn obeys_from_spec() -> bool {
        true
    }

    open spec fn from_spec(s: &str) -> Self {
        if s@ == "xz"@ {
            CompressFile::Xz
        } else if s@ == "gz"@ {
            CompressFile::Gzip
        } else if s@ == "bz2"@ {
            CompressFile::Bz2
        } else if s@ == "zst"@ {
            CompressFile::Zstd
        } else {
            CompressFile::Nothing
        }
    }
}

/// Where one candidate copy of an artifact lives.
#[derive(Debug, Clone, PartialEq, Eq)]
pub enum DownloadSourceType {
    /// A remote location, with optional basic-auth credentials.
    Http { auth: Option<(String, String)> },
    /// A file on this machine; the flag records whether the path came from a
    /// `file:` URL.
    Local(bool),
}

impl DownloadSourceType {
    /// Tie-break position: `Http` before `Local`.
    pub open spec fn order(&self) -> int {
        match self {
            DownloadSourceType::Http { .. } => 0,
            DownloadSourceType::Local(_) => 1,
        }
    }

    /// True for a local source.
    pub open spec fn is_local(&self) -> bool {
        self is Local
    }
}

impl PartialOrd for DownloadSourceType {
    fn partial_cmp(&self, other: &Self) -> (r: Option<Ordering>) {
        match (self, other) {
            (DownloadSourceType::Http { .. }, DownloadSourceType::Http { .. }) => Some(
                Ordering::Equal,
            ),
            (DownloadSourceType::Http { .. }, DownloadSourceType::Local(_)) => Some(Ordering::Less),
            (DownloadSourceType::Local(_), DownloadSourceType::Http { .. }) => Some(
                Ordering::Greater,
            ),
            (DownloadSourceType::Local(_), DownloadSourceType::Local(_)) => Some(Ordering::Equal),
        }
    }
}

impl vstd::std_specs::cmp::PartialOrdSpecImpl for DownloadSourceType {
    open spec fn obeys_partial_cmp_spec() -> bool {
        true
    }

    open spec fn partial_cmp_spec(&self, other: &Self) -> Option<Ordering> {
        if self.order() < other.order() {
            Some(Ordering::Less)
        } else if self.order() == other.order() {
            Some(Ordering::Equal)
        } else {
            Some(Ordering::Greater)
        }
    }
}

/// One candidate location for an artifact.
#[derive(Debug, Clone, PartialEq, Eq)]
pub struct DownloadSource {
    pub url: String,
    pub source_type: DownloadSourceType,
}

/// One requested artifact: an ordered, non-empty list of fallback sources,
/// the destination name and directory, an optional expected digest, whether
/// a partial file may be resumed, an optional display message and the
/// encoding the caller settled on.
///
/// An empty source list is a structural error: a job built from such an
/// entry fails at once with [`DownloadError::EmptySources`].
#[derive(Debug, Clone, Default)]
pub struct DownloadEntry {
    pub source: Vec<DownloadSource>,
    pub filename: String,
    pub dir: String,
    pub hash: Option<Checksum>,
    pub allow_resume: bool,
    pub msg: Option<String>,
    pub file_type: CompressFile,
}

impl DownloadEntry {
    /// True when some source of this entry is local.
    pub open spec fn has_local_source(&self) -> bool {
        exists|i: int| 0 <= i < self.source@.len() && (#[trigger] self.source@[i]).source_type.is_local()
    }

    /// The destination: the directory and the filename, joined by a single
    /// separator.
    pub open spec fn dest_path_spec(&self) -> Seq<char> {
        if self.dir@.len() == 0 {
            self.filename@
        } else if self.dir@.last() == '/' {
            self.dir@ + self.filename@
        } else {
            self.dir@ + "/"@ + self.filename@
        }
    }

    /// Renders the destination path.
    pub fn dest_path(&self) -> (r: String)
        ensures
            r@ == self.dest_path_spec(),
    {
        let mut out = String::new();
        if self.dir.as_str().unicode_len() == 0 {
            out.append(self.filename.as_str());
            return out;
        }
        out.append(self.dir.as_str());
        if !crate::strutil::str_ends_with_char(self.dir.as_str(), '/') {
            out.append("/");
            proof {
                reveal_strlit("/");
                assert(out@ =~= self.dir@ + "/"@);
            }
        }
        out.append(self.filename.as_str());
        out
    }
}

/// What one settled job reports back.
#[derive(Debug, Clone, PartialEq, Eq)]
pub struct Summary {
    pub filename: String,
    /// True exactly when bytes were transferred in this run; an entry whose
    /// destination already verified reports `false`.
    pub wrote: bool,
    /// The caller-supplied index of the entry, for correlation.
    pub count: usize,
    /// Opaque pass-through payload for downstream pipeline stages.
    pub context: Option<String>,
}

} // verus!
