//! Models of repository source entries and the metadata-refresh
//! configuration.
//!
//! A [`SourceListEntry`] holds what one line of the apt sources lists
//! says, as plain values; [`OmaSourceEntry::new`] classifies it and
//! derives the paths the refresh pipeline fetches.  The pipeline itself —
//! fetching release files, parsing them, scheduling the database
//! downloads — runs outside; this module holds the verified parsing and
//! the refresh configuration.

use vstd::prelude::*;

use crate::download::DownloadError;
use crate::strutil::{
    clone_string_vec, find_prefixed_token, str_eq, str_starts_with, str_trim_end_slash,
    str_vecs_like, token_at, trim_end_slash,
};
use crate::topics::OmaTopicsError;

verus! {

/// Failures of the metadata refresh.
#[derive(Debug, Clone, PartialEq, Eq)]
pub enum RefreshError {
    /// A repository URL could not be parsed.
    InvaildUrl(String),
    /// The distro repository data could not be parsed; carries the path.
    ParseDistroRepoDataErrpr(String),
    /// A file could not be read.
    ReadFileError { path: String, error: String },
    /// Scanning the sources lists failed; carries the cause.
    ScanSourceError(String),
    /// A source entry names a protocol the refresh cannot fetch.
    UnsupportedProtocol(String),
    /// The fetcher failed.
    FetcherError(DownloadError),
    /// Topic bookkeeping failed.
    TopicsError(OmaTopicsError),
    /// The release file is missing upstream; carries the URL.
    NoInReleaseFile(String),
}

/// Something worth telling the user while the refresh runs.
pub enum Event {
    Info(String),
}

/// One line of the apt sources lists, as plain values.
#[derive(Debug)]
pub struct SourceListEntry {
    /// True for a `deb-src` line.
    pub source: bool,
    /// The line's options, as written between brackets.
    pub options: Option<String>,
    /// The repository URL, as written.
    pub url: String,
    /// The suite (distribution) name.
    pub suite: String,
    /// The components named on the line.
    pub components: Vec<String>,
}

impl SourceListEntry {
    /// The URL without one trailing slash, as lookups use it.
    pub open spec fn url_spec(&self) -> Seq<char> {
        trim_end_slash(self.url@)
    }

    /// Where the suite's release data lives: the URL, `dists`, and the
    /// suite, joined by slashes.
    pub open spec fn dist_path_spec(&self) -> Seq<char> {
        self.url_spec() + "/dists/"@ + self.suite@
    }
}

/// Whether a source entry is fetched over HTTP or from this machine.
#[derive(Debug, Clone, Copy, PartialEq, Eq, Structural)]
pub enum OmaSourceEntryFrom {
    Http,
    Local,
}

/// A classified source entry, ready for the refresh: where it comes from,
/// which paths to fetch, and the key its signatures are checked with.
#[derive(Debug, PartialEq, Eq)]
pub struct OmaSourceEntry {
    /// Remote or local.
    pub from: OmaSourceEntryFrom,
    /// The components named on the line.
    pub components: Vec<String>,
    /// The repository URL, as written.
    pub url: String,
    /// The suite name.
    pub suite: String,
    /// The path of the release file to fetch.
    pub inrelease_path: String,
    /// The path the suite's file lists hang under.
    pub dist_path: String,
    /// True for a flat repository: no components, the suite written `/`.
    pub is_flat: bool,
    /// The `signed-by=` option, when the line carries one.
    pub signed_by: Option<String>,
}

/// The entry serves HTTP.
pub open spec fn is_http_url(u: Seq<char>) -> bool {
    "http://"@.is_prefix_of(u) || "https://"@.is_prefix_of(u)
}

/// The entry names a file on this machine.
pub open spec fn is_file_url(u: Seq<char>) -> bool {
    "file://"@.is_prefix_of(u)
}

/// A flat repository: no components and the suite written `/`.
pub open spec fn is_flat_entry(v: SourceListEntry) -> bool {
    v.components@.len() == 0 && v.suite@ == "/"@
}

/// The refresh can fetch this entry: a protocol it speaks and either a
/// flat layout or at least one component.
pub open spec fn convertible(v: SourceListEntry) -> bool {
    &&& is_http_url(trim_end_slash(v.url@)) || is_file_url(trim_end_slash(v.url@))
    &&& is_flat_entry(v) || v.components@.len() > 0
}

/// What classifying `v` yields.
pub open spec fn converts_to(v: SourceListEntry, e: OmaSourceEntry) -> bool {
    let t = trim_end_slash(v.url@);
    &&& e.from == (if is_http_url(t) {
        OmaSourceEntryFrom::Http
    } else {
        OmaSourceEntryFrom::Local
    })
    &&& str_vecs_like(e.components@, v.components@)
    &&& e.url@ == v.url@
    &&& e.suite@ == v.suite@
    &&& e.is_flat == is_flat_entry(v)
    &&& e.dist_path@ == (if is_flat_entry(v) {
        t
    } else {
        v.dist_path_spec()
    })
    &&& e.inrelease_path@ == (if is_flat_entry(v) {
        v.url@ + "/Release"@
    } else {
        v.dist_path_spec() + "/InRelease"@
    })
    &&& e.signed_by matches Some(k) ==> v.options matches Some(o) && exists|i: int, j: int|
        {
            &&& #[trigger] token_at(o@, i, j)
            &&& "signed-by="@.is_prefix_of(o@.subrange(i, j))
            &&& k@ == o@.subrange(i + "signed-by="@.len(), j)
        }
    &&& e.signed_by is None ==> match v.options {
        Some(o) => forall|i: int, j: int|
            #[trigger] token_at(o@, i, j) ==> !"signed-by="@.is_prefix_of(o@.subrange(i, j)),
        None => true,
    }
}

impl OmaSourceEntry {
    /// Classifies one source entry: decides remote or local from the URL's
    /// protocol, recognises the flat layout, derives the release-file and
    /// file-list paths, and extracts the `signed-by=` option.  Rejects a
    /// protocol the refresh cannot fetch, and a non-flat line without
    /// components.
    pub fn new(v: &SourceListEntry) -> (r: Result<Self, RefreshError>)
        ensures
            convertible(*v) ==> {
                &&& r matches Ok(e)
                &&& converts_to(*v, e)
            },
            !convertible(*v) ==> {
                &&& r matches Err(RefreshError::UnsupportedProtocol(u))
                &&& u@ == v.url@
            },
    {
        let trimmed = str_trim_end_slash(v.url.as_str());
        let is_http = str_starts_with(trimmed.as_str(), "http://") || str_starts_with(
            trimmed.as_str(),
            "https://",
        );
        let is_file = str_starts_with(trimmed.as_str(), "file://");
        if !is_http && !is_file {
            return Err(RefreshError::UnsupportedProtocol(v.url.clone()));
        }
        let flat = v.components.len() == 0 && str_eq(v.suite.as_str(), "/");
        if !flat && v.components.len() == 0 {
            return Err(RefreshError::UnsupportedProtocol(v.url.clone()));
        }
        let mut dist_path = String::new();
        dist_path.append(trimmed.as_str());
        if !flat {
            dist_path.append("/dists/");
            dist_path.append(v.suite.as_str());
        }
        let mut inrelease_path = String::new();
        if flat {
            inrelease_path.append(v.url.as_str());
            inrelease_path.append("/Release");
        } else {
            inrelease_path.append(dist_path.as_str());
            inrelease_path.append("/InRelease");
        }
        let signed_by = match &v.options {
            Some(o) => find_prefixed_token(o.as_str(), "signed-by="),
            None => None,
        };
        Ok(
            OmaSourceEntry {
                from: if is_http {
                    OmaSourceEntryFrom::Http
                } else {
                    OmaSourceEntryFrom::Local
                },
                components: clone_string_vec(&v.components),
                url: v.url.clone(),
                suite: v.suite.clone(),
                inrelease_path,
                dist_path,
                is_flat: flat,
                signed_by,
            },
        )
    }
}

/// Classifies a whole scan of the sources lists, stopping at the first
/// entry the refresh cannot fetch.
fn hr_sources(sources: &Vec<SourceListEntry>) -> (r: Result<Vec<OmaSourceEntry>, RefreshError>)
    ensures
        (forall|i: int| 0 <= i < sources@.len() ==> convertible(#[trigger] sources@[i])) <==> r
            is Ok,
        r matches Ok(v) ==> {
            &&& v@.len() == sources@.len()
            &&& forall|i: int|
                0 <= i < v@.len() ==> converts_to(#[trigger] sources@[i], #[trigger] v@[i])
        },
        r matches Err(e) ==> exists|i: int|
            {
                &&& 0 <= i < sources@.len()
                &&& !convertible(#[trigger] sources@[i])
                &&& forall|k: int| 0 <= k < i ==> convertible(#[trigger] sources@[k])
                &&& e matches RefreshError::UnsupportedProtocol(u) && u@ == sources@[i].url@
            },
{
    let n = sources.len();
    let mut out: Vec<OmaSourceEntry> = Vec::new();
    let mut i: usize = 0;
    while i < n
        invariant
            n == sources@.len(),
            i <= n,
            out@.len() == i,
            forall|k: int| 0 <= k < i ==> convertible(#[trigger] sources@[k]),
            forall|k: int|
                0 <= k < i ==> converts_to(#[trigger] sources@[k], #[trigger] out@[k]),
        decreases n - i,
    {
        match OmaSourceEntry::new(&sources[i]) {
            Ok(e) => {
                out.push(e);
            },
            Err(e) => {
                return Err(e);
            },
        }
        i = i + 1;
    }
    Ok(out)
}

/// The refresh configuration: the classified sources, a concurrency
/// limit, the machine architecture, where the databases land, and whether
/// progress bars are drawn.
#[derive(Debug)]
pub struct OmaRefresh {
    pub sources: Vec<OmaSourceEntry>,
    pub limit: Option<usize>,
    pub arch: String,
    pub download_dir: String,
    pub bar: bool,
}

impl OmaRefresh {
    /// Builds the refresh configuration from a scan of the sources lists
    /// and the machine architecture, classifying every entry.  Progress
    /// bars default on.  Fails exactly when some entry cannot be fetched.
    pub fn scan(
        limit: Option<usize>,
        sources: Vec<SourceListEntry>,
        arch: String,
        download_dir: String,
    ) -> (r: Result<Self, RefreshError>)
        ensures
            (forall|i: int| 0 <= i < sources@.len() ==> convertible(#[trigger] sources@[i])) <==> r
                is Ok,
            r matches Ok(m) ==> {
                &&& m.sources@.len() == sources@.len()
                &&& forall|i: int|
                    0 <= i < m.sources@.len() ==> converts_to(
                        #[trigger] sources@[i],
                        #[trigger] m.sources@[i],
                    )
                &&& m.limit == limit
                &&& m.arch == arch
                &&& m.download_dir == download_dir
                &&& m.bar == true
            },
    {
        match hr_sources(&sources) {
            Ok(v) => Ok(OmaRefresh { sources: v, limit, arch, download_dir, bar: true }),
            Err(e) => Err(e),
        }
    }

    /// Points the refresh at another download directory; the rest of the
    /// configuration stands.
    pub fn download_dir(&mut self, download_dir: &str) -> (r: &mut Self)
        ensures
            r.download_dir@ == download_dir@,
            r.sources == old(self).sources,
            r.limit == old(self).limit,
            r.arch == old(self).arch,
            r.bar == old(self).bar,
            *final(self) == *final(r),
    {
        self.download_dir = download_dir.to_owned();
        self
    }

    /// Switches the progress bars on or off; the rest of the
    /// configuration stands.
    pub fn bar(&mut self, bar: bool) -> (r: &mut Self)
        ensures
            r.bar == bar,
            r.sources == old(self).sources,
            r.limit == old(self).limit,
            r.arch == old(self).arch,
            r.download_dir == old(self).download_dir,
            *final(self) == *final(r),
    {
        self.bar = bar;
        self
    }
}

} // verus!
