//! Topic bookkeeping: which optional package repositories ("topics") are
//! enabled, opting in and out, and reconciling against the list of topics
//! that still exist upstream.
//!
//! Reading and writing the on-disk state and fetching the topic manifests
//! are the runtime's work; this module holds the decisions over the plain
//! data.

use vstd::prelude::*;

use crate::strutil::{clone_string_vec, lower_chars, str_eq, str_eq_ignore_ascii_case, str_vecs_like};

verus! {

/// Failures of topic bookkeeping.
#[derive(Debug, Clone, PartialEq, Eq)]
pub enum OmaTopicsError {
    /// The topic state could not be parsed; carries the cause.
    SerdeError(String),
    /// Reading or writing the state failed; carries the cause.
    IOError(String),
    /// No topic of the given name is available.
    CanNotFindTopic(String),
    /// No enabled topic of the given name exists.
    FailedToEnableTopic(String),
    /// Fetching a topic manifest failed; carries the cause.
    ReqwestError(String),
    /// The sources list could not be read; carries the cause.
    SoutceListError(String),
}

/// One optional repository: its name, an optional description, its
/// publication date, the architectures it serves and the packages it
/// carries.
#[derive(Debug)]
pub struct Topic {
    pub name: String,
    pub description: Option<String>,
    pub date: u64,
    pub arch: Option<Vec<String>>,
    pub packages: Vec<String>,
}

/// Something worth telling the user while topics are scanned.
#[derive(Debug, Clone)]
pub enum TopicsEvent {
    Info(String),
}

/// The two fields hold the same characters everywhere.
pub open spec fn topic_like(a: Topic, b: Topic) -> bool {
    &&& a.name@ == b.name@
    &&& match (a.description, b.description) {
        (Some(x), Some(y)) => x@ == y@,
        (None, None) => true,
        _ => false,
    }
    &&& a.date == b.date
    &&& match (a.arch, b.arch) {
        (Some(x), Some(y)) => str_vecs_like(x@, y@),
        (None, None) => true,
        _ => false,
    }
    &&& str_vecs_like(a.packages@, b.packages@)
}

/// `t` is the topic named `topic` (comparing without ASCII case) and
/// serves `arch` or every architecture.
pub open spec fn topic_matches(t: Topic, topic: Seq<char>, arch: Seq<char>) -> bool {
    &&& lower_chars(t.name@) == lower_chars(topic)
    &&& match t.arch {
        Some(a) => exists|i: int|
            0 <= i < a@.len() && ((#[trigger] a@[i])@ == arch || a@[i]@ == "all"@),
        None => false,
    }
}

/// The enabled and the available topics.
#[derive(Debug)]
pub struct TopicManager {
    /// The topics the user has opted into.
    pub enabled: Vec<Topic>,
    /// Every topic the mirrors offer; empty until refreshed.
    pub all: Vec<Topic>,
}

impl TopicManager {
    /// A manager over an already-read list of enabled topics; the
    /// available topics start empty until a refresh fills them.
    pub fn new(enabled: Vec<Topic>) -> (r: Self)
        ensures
            r.enabled == enabled,
            r.all@.len() == 0,
    {
        TopicManager { enabled, all: Vec::new() }
    }

    /// Some enabled topic carries exactly this name.
    pub open spec fn enabled_has_name(&self, name: Seq<char>) -> bool {
        all_has_name(self.enabled@, name)
    }

    /// Opts into `topic`: the first available topic of that name (ASCII
    /// case ignored) serving `arch` is added to the enabled list, unless a
    /// topic of the same name is already enabled.  A dry run changes
    /// nothing.  Fails exactly when no available topic matches.
    pub fn add(&mut self, topic: &str, dry_run: bool, arch: &str) -> (r: Result<
        (),
        OmaTopicsError,
    >)
        ensures
            dry_run ==> r is Ok && *final(self) == *old(self),
            !dry_run && (exists|i: int|
                0 <= i < old(self).all@.len() && topic_matches(
                    #[trigger] old(self).all@[i],
                    topic@,
                    arch@,
                )) ==> {
                &&& r is Ok
                &&& final(self).all == old(self).all
                &&& exists|i: int|
                    {
                        &&& 0 <= i < old(self).all@.len()
                        &&& topic_matches(#[trigger] old(self).all@[i], topic@, arch@)
                        &&& forall|k: int|
                            0 <= k < i ==> !topic_matches(#[trigger] old(self).all@[k], topic@, arch@)
                        &&& if old(self).enabled_has_name(old(self).all@[i].name@) {
                            final(self).enabled == old(self).enabled
                        } else {
                            &&& final(self).enabled@.len() == old(self).enabled@.len() + 1
                            &&& final(self).enabled@.take(old(self).enabled@.len() as int) == old(
                                self,
                            ).enabled@
                            &&& topic_like(final(self).enabled@.last(), old(self).all@[i])
                        }
                    }
            },
            !dry_run && !(exists|i: int|
                0 <= i < old(self).all@.len() && topic_matches(
                    #[trigger] old(self).all@[i],
                    topic@,
                    arch@,
                )) ==> {
                &&& *final(self) == *old(self)
                &&& r matches Err(OmaTopicsError::CanNotFindTopic(t)) && t@ == topic@
            },
    {
        if dry_run {
            return Ok(());
        }
        let n = self.all.len();
        let mut i: usize = 0;
        while i < n
            invariant
                !dry_run,
                n == self.all@.len(),
                i <= n,
                forall|k: int|
                    0 <= k < i ==> !topic_matches(#[trigger] self.all@[k], topic@, arch@),
                *self == *old(self),
            decreases n - i,
        {
            if topic_matches_exec(&self.all[i], topic, arch) {
                let already = self.enabled_has_name_exec(i);
                if !already {
                    let t = clone_topic(&self.all[i]);
                    self.enabled.push(t);
                }
                return Ok(());
            }
            i = i + 1;
        }
        Err(OmaTopicsError::CanNotFindTopic(String::from_str(topic)))
    }

    /// True when an enabled topic carries exactly the name of available
    /// topic `i`.
    fn enabled_has_name_exec(&self, i: usize) -> (r: bool)
        requires
            i < self.all@.len(),
        ensures
            r == self.enabled_has_name(self.all@[i as int].name@),
    {
        let n = self.enabled.len();
        let mut k: usize = 0;
        while k < n
            invariant
                i < self.all@.len(),
                n == self.enabled@.len(),
                k <= n,
                forall|t: int|
                    0 <= t < k ==> (#[trigger] self.enabled@[t]).name@ != self.all@[i as int].name@,
            decreases n - k,
        {
            if str_eq(self.enabled[k].name.as_str(), self.all[i].name.as_str()) {
                return true;
            }
            k = k + 1;
        }
        false
    }

    /// Opts out of `topic`: the first enabled topic of that name (ASCII
    /// case ignored) is removed and its packages are returned, so the
    /// caller can downgrade them.  A dry run only reports the packages and
    /// must name an enabled topic.  Fails exactly when no enabled topic
    /// matches.
    pub fn remove(&mut self, topic: &str, dry_run: bool) -> (r: Result<Vec<String>, OmaTopicsError>)
        requires
            dry_run ==> exists|i: int|
                0 <= i < old(self).enabled@.len() && lower_chars(
                    (#[trigger] old(self).enabled@[i]).name@,
                ) == lower_chars(topic@),
        ensures
            (exists|i: int|
                0 <= i < old(self).enabled@.len() && lower_chars(
                    (#[trigger] old(self).enabled@[i]).name@,
                ) == lower_chars(topic@)) ==> exists|i: int|
                {
                    &&& 0 <= i < old(self).enabled@.len()
                    &&& lower_chars((#[trigger] old(self).enabled@[i]).name@) == lower_chars(topic@)
                    &&& forall|k: int|
                        0 <= k < i ==> lower_chars((#[trigger] old(self).enabled@[k]).name@)
                            != lower_chars(topic@)
                    &&& if dry_run {
                        &&& *final(self) == *old(self)
                        &&& r matches Ok(v) && str_vecs_like(
                            v@,
                            old(self).enabled@[i].packages@,
                        )
                    } else {
                        &&& final(self).enabled@ == old(self).enabled@.remove(i)
                        &&& final(self).all == old(self).all
                        &&& r == Ok::<Vec<String>, OmaTopicsError>(old(self).enabled@[i].packages)
                    }
                },
            !(exists|i: int|
                0 <= i < old(self).enabled@.len() && lower_chars(
                    (#[trigger] old(self).enabled@[i]).name@,
                ) == lower_chars(topic@)) ==> {
                &&& *final(self) == *old(self)
                &&& r matches Err(OmaTopicsError::FailedToEnableTopic(t)) && t@ == topic@
            },
    {
        let n = self.enabled.len();
        let mut i: usize = 0;
        while i < n
            invariant
                n == self.enabled@.len(),
                i <= n,
                forall|k: int|
                    0 <= k < i ==> lower_chars((#[trigger] self.enabled@[k]).name@) != lower_chars(
                        topic@,
                    ),
                *self == *old(self),
            decreases n - i,
        {
            if str_eq_ignore_ascii_case(self.enabled[i].name.as_str(), topic) {
                if dry_run {
                    let pkgs = clone_string_vec(&self.enabled[i].packages);
                    return Ok(pkgs);
                }
                let d = self.enabled.remove(i);
                return Ok(d.packages);
            }
            i = i + 1;
        }
        Err(OmaTopicsError::FailedToEnableTopic(String::from_str(topic)))
    }
}

/// Removes the enabled topic carrying exactly `name`; the caller then
/// rewrites the on-disk state.  A dry run changes nothing.  Fails exactly
/// when no enabled topic carries the name.
pub fn rm_topic(tm: &mut TopicManager, name: &str, dry_run: bool) -> (r: Result<
    (),
    OmaTopicsError,
>)
    ensures
        dry_run ==> r is Ok && *final(tm) == *old(tm),
        !dry_run && old(tm).enabled_has_name(name@) ==> exists|i: int|
            {
                &&& 0 <= i < old(tm).enabled@.len()
                &&& (#[trigger] old(tm).enabled@[i]).name@ == name@
                &&& forall|k: int| 0 <= k < i ==> (#[trigger] old(tm).enabled@[k]).name@ != name@
                &&& final(tm).enabled@ == old(tm).enabled@.remove(i)
                &&& final(tm).all == old(tm).all
                &&& r is Ok
            },
        !dry_run && !old(tm).enabled_has_name(name@) ==> {
            &&& *final(tm) == *old(tm)
            &&& r matches Err(OmaTopicsError::CanNotFindTopic(t)) && t@ == name@
        },
{
    if dry_run {
        return Ok(());
    }
    let n = tm.enabled.len();
    let mut i: usize = 0;
    while i < n
        invariant
            !dry_run,
            n == tm.enabled@.len(),
            i <= n,
            forall|k: int| 0 <= k < i ==> (#[trigger] tm.enabled@[k]).name@ != name@,
            *tm == *old(tm),
        decreases n - i,
    {
        if str_eq(tm.enabled[i].name.as_str(), name) {
            tm.enabled.remove(i);
            return Ok(());
        }
        i = i + 1;
    }
    Err(OmaTopicsError::CanNotFindTopic(String::from_str(name)))
}

/// The display line of one topic: its name, then its description in
/// parentheses when it has one.
pub open spec fn topic_display(t: Topic) -> Seq<char> {
    match t.description {
        Some(d) => t.name@ + " ("@ + d@ + ")"@,
        None => t.name@,
    }
}

/// One display line per available topic, in order.
pub fn list(tm: &TopicManager) -> (r: Vec<String>)
    ensures
        r@.len() == tm.all@.len(),
        forall|i: int| 0 <= i < r@.len() ==> (#[trigger] r@[i])@ == topic_display(tm.all@[i]),
{
    let n = tm.all.len();
    let mut out: Vec<String> = Vec::new();
    let mut i: usize = 0;
    while i < n
        invariant
            n == tm.all@.len(),
            i <= n,
            out@.len() == i,
            forall|k: int| 0 <= k < i ==> (#[trigger] out@[k])@ == topic_display(tm.all@[k]),
        decreases n - i,
    {
        let mut line = String::new();
        line.append(tm.all[i].name.as_str());
        match &tm.all[i].description {
            Some(d) => {
                line.append(" (");
                line.append(d.as_str());
                line.append(")");
            },
            None => {},
        }
        out.push(line);
        i = i + 1;
    }
    out
}

/// No two enabled topics share a name.  [`TopicManager::add`] refuses to
/// enable a name twice, so the library's own operations keep this.
pub open spec fn names_unique(s: Seq<Topic>) -> bool {
    forall|i: int, j: int|
        0 <= i < j < s.len() ==> (#[trigger] s[i]).name@ != (#[trigger] s[j]).name@
}

/// Reconciles the suites enabled on disk with the topics still offered:
/// every scanned suite that no available topic carries any more is removed
/// from the enabled topics, and every scanned suite is reported back.
/// Fails with [`OmaTopicsError::CanNotFindTopic`] when a vanished suite is
/// not enabled either.
pub fn scan_closed_topic(tm: &mut TopicManager, suites: Vec<String>) -> (r: Result<
    Vec<String>,
    OmaTopicsError,
>)
    requires
        names_unique(old(tm).enabled@),
    ensures
        names_unique(final(tm).enabled@),
        r matches Ok(v) ==> {
            &&& v == suites
            &&& final(tm).all == old(tm).all
            &&& forall|k: int|
                0 <= k < suites@.len() && !all_has_name(old(tm).all@, (#[trigger] suites@[k])@)
                    ==> !final(tm).enabled_has_name(suites@[k]@)
        },
{
    let n = suites.len();
    let mut i: usize = 0;
    while i < n
        invariant
            n == suites@.len(),
            i <= n,
            tm.all == old(tm).all,
            names_unique(tm.enabled@),
            forall|k: int|
                0 <= k < i && !all_has_name(old(tm).all@, (#[trigger] suites@[k])@)
                    ==> !tm.enabled_has_name(suites@[k]@),
        decreases n - i,
    {
        let ghost before = tm.enabled@;
        let gone = !all_has_name_exec(&tm.all, suites[i].as_str());
        if gone {
            match rm_topic(tm, suites[i].as_str(), false) {
                Ok(_) => {
                    proof {
                        let idx = choose|idx: int|
                            {
                                &&& 0 <= idx < before.len()
                                &&& (#[trigger] before[idx]).name@ == suites@[i as int]@
                                &&& tm.enabled@ == before.remove(idx)
                            };
                        lemma_remove_unique(before, idx);
                        assert forall|k: int|
                            0 <= k <= i && !all_has_name(
                                old(tm).all@,
                                (#[trigger] suites@[k])@,
                            ) implies !tm.enabled_has_name(suites@[k]@) by {
                            lemma_remove_no_new_names(before, idx, suites@[k]@);
                            if k == i {
                                assert(!all_has_name(before.remove(idx), suites@[i as int]@));
                            }
                        }
                    }
                },
                Err(e) => {
                    return Err(e);
                },
            }
        }
        i = i + 1;
    }
    Ok(suites)
}

/// Removing a topic keeps the remaining names unique, and — since a name
/// occurs at most once — leaves no topic of the removed name behind.
proof fn lemma_remove_unique(s: Seq<Topic>, i: int)
    requires
        names_unique(s),
        0 <= i < s.len(),
    ensures
        names_unique(s.remove(i)),
        !all_has_name(s.remove(i), s[i].name@),
{
    let t = s.remove(i);
    assert forall|a: int, b: int| 0 <= a < b < t.len() implies (#[trigger] t[a]).name@ != (
    #[trigger] t[b]).name@ by {
        assert(t[a] == if a < i {
            s[a]
        } else {
            s[a + 1]
        });
        assert(t[b] == if b < i {
            s[b]
        } else {
            s[b + 1]
        });
    }
    assert forall|k: int| 0 <= k < t.len() implies (#[trigger] t[k]).name@ != s[i].name@ by {
        assert(t[k] == if k < i {
            s[k]
        } else {
            s[k + 1]
        });
    }
}

/// Removing a topic introduces no name that was absent before.
proof fn lemma_remove_no_new_names(s: Seq<Topic>, i: int, name: Seq<char>)
    requires
        0 <= i < s.len(),
    ensures
        !all_has_name(s, name) ==> !all_has_name(s.remove(i), name),
{
    let t = s.remove(i);
    if !all_has_name(s, name) {
        assert forall|k: int| 0 <= k < t.len() implies (#[trigger] t[k]).name@ != name by {
            assert(t[k] == if k < i {
                s[k]
            } else {
                s[k + 1]
            });
        }
    }
}

/// The mirror with a trailing slash, added when it lacks one.
pub open spec fn with_slash(mirror: Seq<char>) -> Seq<char> {
    if mirror.len() > 0 && mirror.last() == '/' {
        mirror
    } else {
        mirror + "/"@
    }
}

/// One line of the topics sources list: the mirror's `debs` tree of the
/// topic's suite.
pub open spec fn deb_line_spec(mirror: Seq<char>, name: Seq<char>) -> Seq<char> {
    "deb "@ + with_slash(mirror) + "debs "@ + name + " main"@
}

/// The comment line written above one topic's mirrors.
pub open spec fn topic_header_spec(name: Seq<char>) -> Seq<char> {
    "# Topic `"@ + name + "`"@
}

/// The deb lines of one topic, one per mirror, in mirror order.
pub open spec fn deb_lines_spec(mirrors: Seq<String>, name: Seq<char>) -> Seq<Seq<char>>
    decreases mirrors.len(),
{
    if mirrors.len() == 0 {
        Seq::empty()
    } else {
        deb_lines_spec(mirrors.drop_last(), name) + seq![deb_line_spec(mirrors.last()@, name)]
    }
}

/// The block one topic contributes: its header, then its deb lines.
pub open spec fn topic_block_spec(t: Topic, mirrors: Seq<String>) -> Seq<Seq<char>> {
    seq![topic_header_spec(t.name@)] + deb_lines_spec(mirrors, t.name@)
}

/// Every line of the topics sources list: one block per enabled topic, in
/// order.
pub open spec fn atm_lines_spec(enabled: Seq<Topic>, mirrors: Seq<String>) -> Seq<Seq<char>>
    decreases enabled.len(),
{
    if enabled.len() == 0 {
        Seq::empty()
    } else {
        atm_lines_spec(enabled.drop_last(), mirrors) + topic_block_spec(enabled.last(), mirrors)
    }
}

impl TopicManager {
    /// Renders the topics sources list that persists the enabled topics:
    /// for each of them, a comment naming it and one `deb` line per
    /// mirror.  The runtime writes these lines, one per line, to the
    /// sources list and the state file.
    pub fn atm_list_lines(&self, mirrors: &Vec<String>) -> (r: Vec<String>)
        ensures
            r@.map_values(|s: String| s@) == atm_lines_spec(self.enabled@, mirrors@),
    {
        let mut out: Vec<String> = Vec::new();
        let n = self.enabled.len();
        let mut i: usize = 0;
        proof {
            assert(self.enabled@.take(0) =~= Seq::<Topic>::empty());
            assert(out@.map_values(|s: String| s@) =~= atm_lines_spec(
                self.enabled@.take(0),
                mirrors@,
            ));
        }
        while i < n
            invariant
                n == self.enabled@.len(),
                i <= n,
                out@.map_values(|s: String| s@) == atm_lines_spec(
                    self.enabled@.take(i as int),
                    mirrors@,
                ),
            decreases n - i,
        {
            let ghost out0 = out@;
            let name = &self.enabled[i].name;
            let ghost nm = name@;
            let mut header = String::new();
            header.append("# Topic `");
            header.append(name.as_str());
            header.append("`");
            proof {
                assert(header@ =~= topic_header_spec(nm));
            }
            out.push(header);
            proof {
                assert(out@.map_values(|s: String| s@) =~= out0.map_values(|s: String| s@)
                    + seq![topic_header_spec(nm)]);
            }
            let ghost mid = out@;
            let m = mirrors.len();
            let mut j: usize = 0;
            proof {
                assert(mirrors@.take(0) =~= Seq::<String>::empty());
                assert(deb_lines_spec(mirrors@.take(0), nm) =~= Seq::<Seq<char>>::empty());
                assert(out@.map_values(|s: String| s@) =~= mid.map_values(|s: String| s@)
                    + deb_lines_spec(mirrors@.take(0), nm));
            }
            while j < m
                invariant
                    n == self.enabled@.len(),
                    i < n,
                    nm == self.enabled@[i as int].name@,
                    m == mirrors@.len(),
                    j <= m,
                    out@.map_values(|s: String| s@) == mid.map_values(|s: String| s@)
                        + deb_lines_spec(mirrors@.take(j as int), nm),
                decreases m - j,
            {
                let ghost outj = out@;
                let mut line = String::new();
                line.append("deb ");
                line.append(mirrors[j].as_str());
                if !crate::strutil::str_ends_with_char(mirrors[j].as_str(), '/') {
                    line.append("/");
                }
                line.append("debs ");
                line.append(self.enabled[i].name.as_str());
                line.append(" main");
                proof {
                    assert(line@ =~= deb_line_spec(mirrors@[j as int]@, nm));
                }
                out.push(line);
                proof {
                    assert(mirrors@.take(j + 1).drop_last() =~= mirrors@.take(j as int));
                    assert(mirrors@.take(j + 1).last() == mirrors@[j as int]);
                    assert(out@.map_values(|s: String| s@) =~= outj.map_values(|s: String| s@)
                        + seq![deb_line_spec(mirrors@[j as int]@, nm)]);
                    assert(out@.map_values(|s: String| s@) =~= mid.map_values(|s: String| s@)
                        + deb_lines_spec(mirrors@.take(j + 1), nm));
                }
                j = j + 1;
            }
            proof {
                assert(mirrors@.take(m as int) =~= mirrors@);
                assert(self.enabled@.take(i + 1).drop_last() =~= self.enabled@.take(i as int));
                assert(self.enabled@.take(i + 1).last() == self.enabled@[i as int]);
                assert(out@.map_values(|s: String| s@) =~= out0.map_values(|s: String| s@)
                    + topic_block_spec(self.enabled@[i as int], mirrors@));
                assert(out@.map_values(|s: String| s@) =~= atm_lines_spec(
                    self.enabled@.take(i + 1),
                    mirrors@,
                ));
            }
            i = i + 1;
        }
        proof {
            assert(self.enabled@.take(n as int) =~= self.enabled@);
        }
        out
    }
}

/// Where a mirror serves its topic manifest: the mirror, a slash when it
/// does not end in one, then `debs/manifest/topics.json`.
pub open spec fn manifest_url_spec(mirror: Seq<char>) -> Seq<char> {
    if mirror.len() > 0 && mirror.last() == '/' {
        mirror + "debs/manifest/topics.json"@
    } else {
        mirror + "/debs/manifest/topics.json"@
    }
}

/// Renders the manifest URL of one mirror.
pub fn manifest_url(mirror: &str) -> (r: String)
    ensures
        r@ == manifest_url_spec(mirror@),
{
    let mut out = String::new();
    out.append(mirror);
    if !crate::strutil::str_ends_with_char(mirror, '/') {
        out.append("/");
        proof {
            reveal_strlit("/");
            reveal_strlit("debs/manifest/topics.json");
            reveal_strlit("/debs/manifest/topics.json");
            assert(out@ + "debs/manifest/topics.json"@ =~= mirror@
                + "/debs/manifest/topics.json"@);
        }
    }
    out.append("debs/manifest/topics.json");
    out
}

/// Some topic of `s` holds the same characters as `t` everywhere.
pub open spec fn contains_like(s: Seq<Topic>, t: Topic) -> bool {
    exists|i: int| 0 <= i < s.len() && topic_like(#[trigger] s[i], t)
}

/// The topics of `new` that `base` does not already hold, in order.
pub open spec fn fresh_topics(base: Seq<Topic>, new: Seq<Topic>) -> Seq<Topic>
    decreases new.len(),
{
    if new.len() == 0 {
        Seq::empty()
    } else {
        (if contains_like(base, new.first()) {
            Seq::empty()
        } else {
            seq![new.first()]
        }) + fresh_topics(base, new.drop_first())
    }
}

/// Merges one mirror's topic list into the collected one: every topic not
/// already collected is appended, in the order the mirror gave it.
/// Membership is decided against the list as it stood before the merge,
/// exactly as collecting from several mirrors in turn does.
pub fn merge_topics(acc: &mut Vec<Topic>, new: Vec<Topic>)
    ensures
        final(acc)@ == old(acc)@ + fresh_topics(old(acc)@, new@),
{
    let ghost base = acc@;
    let ghost whole = new@;
    let base_len = acc.len();
    let mut rest = new;
    while rest.len() > 0
        invariant
            base_len == base.len(),
            acc@.len() >= base.len(),
            acc@.take(base.len() as int) == base,
            acc@ + fresh_topics(base, rest@) == base + fresh_topics(base, whole),
        decreases rest@.len(),
    {
        let ghost rest0 = rest@;
        let t = rest.remove(0);
        let mut seen = false;
        let mut j: usize = 0;
        while j < base_len
            invariant
                base_len == base.len(),
                acc@.take(base.len() as int) == base,
                acc@.len() >= base.len(),
                j <= base_len,
                seen ==> contains_like(base, t),
                !seen ==> forall|k: int| 0 <= k < j ==> !topic_like(#[trigger] base[k], t),
            decreases base_len - j,
        {
            if topic_eq(&acc[j], &t) {
                proof {
                    assert(acc@[j as int] == acc@.take(base.len() as int)[j as int]);
                }
                seen = true;
                j = base_len;
            } else {
                j = j + 1;
            }
        }
        proof {
            assert(rest0.drop_first() =~= rest@);
            assert(rest0.first() == t);
            if seen {
                assert(fresh_topics(base, rest0) =~= fresh_topics(base, rest@));
            } else {
                assert(fresh_topics(base, rest0) =~= seq![t] + fresh_topics(base, rest@));
            }
        }
        if !seen {
            let ghost before = acc@;
            acc.push(t);
            proof {
                assert(acc@ =~= before + seq![t]);
                assert(acc@ + fresh_topics(base, rest@) =~= before + (seq![t] + fresh_topics(
                    base,
                    rest@,
                )));
                assert(acc@.take(base.len() as int) =~= before.take(base.len() as int));
            }
        }
    }
    proof {
        assert(rest@ =~= Seq::<Topic>::empty());
        assert(fresh_topics(base, rest@) == Seq::<Topic>::empty());
        assert(acc@ + Seq::<Topic>::empty() =~= acc@);
    }
}

/// True exactly when the two topics hold the same characters everywhere.
fn topic_eq(a: &Topic, b: &Topic) -> (r: bool)
    ensures
        r == topic_like(*a, *b),
{
    if !str_eq(a.name.as_str(), b.name.as_str()) {
        return false;
    }
    let desc_eq = match (&a.description, &b.description) {
        (Some(x), Some(y)) => str_eq(x.as_str(), y.as_str()),
        (None, None) => true,
        _ => false,
    };
    if !desc_eq {
        return false;
    }
    if a.date != b.date {
        return false;
    }
    let arch_eq = match (&a.arch, &b.arch) {
        (Some(x), Some(y)) => crate::strutil::str_vec_eq(x, y),
        (None, None) => true,
        _ => false,
    };
    if !arch_eq {
        return false;
    }
    crate::strutil::str_vec_eq(&a.packages, &b.packages)
}

/// Some topic of `all` carries exactly this name.
pub open spec fn all_has_name(all: Seq<Topic>, name: Seq<char>) -> bool {
    exists|i: int| 0 <= i < all.len() && (#[trigger] all[i]).name@ == name
}

/// True when some topic of `all` carries exactly `name`.
fn all_has_name_exec(all: &Vec<Topic>, name: &str) -> (r: bool)
    ensures
        r == all_has_name(all@, name@),
{
    let n = all.len();
    let mut i: usize = 0;
    while i < n
        invariant
            n == all@.len(),
            i <= n,
            forall|k: int| 0 <= k < i ==> (#[trigger] all@[k]).name@ != name@,
        decreases n - i,
    {
        if str_eq(all[i].name.as_str(), name) {
            return true;
        }
        i = i + 1;
    }
    false
}

/// A topic with the same characters everywhere.
fn clone_topic(t: &Topic) -> (r: Topic)
    ensures
        topic_like(r, *t),
{
    let arch: Option<Vec<String>> = match &t.arch {
        Some(a) => Some(clone_string_vec(a)),
        None => None,
    };
    let packages = clone_string_vec(&t.packages);
    Topic {
        name: t.name.clone(),
        description: crate::strutil::clone_opt_string(&t.description),
        date: t.date,
        arch,
        packages,
    }
}

/// True when `t` is named `topic` (ASCII case ignored) and serves `arch`
/// or every architecture.
fn topic_matches_exec(t: &Topic, topic: &str, arch: &str) -> (r: bool)
    ensures
        r == topic_matches(*t, topic@, arch@),
{
    if !str_eq_ignore_ascii_case(t.name.as_str(), topic) {
        return false;
    }
    match &t.arch {
        Some(a) => {
            let n = a.len();
            let mut i: usize = 0;
            while i < n
                invariant
                    lower_chars(t.name@) == lower_chars(topic@),
                    t.arch matches Some(aa) && aa == a,
                    n == a@.len(),
                    i <= n,
                    forall|k: int|
                        0 <= k < i ==> !((#[trigger] a@[k])@ == arch@ || a@[k]@ == "all"@),
                decreases n - i,
            {
                if str_eq(a[i].as_str(), arch) || str_eq(a[i].as_str(), "all") {
                    return true;
                }
                i = i + 1;
            }
            false
        },
        None => false,
    }
}

} // verus!
