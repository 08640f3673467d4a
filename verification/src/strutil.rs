//! Verified character-level helpers over `&str`, used by the parsing and
//! formatting code throughout the crate.

use vstd::prelude::*;

verus! {

/// True exactly when the two strings hold the same characters.
pub fn str_eq(a: &str, b: &str) -> (r: bool)
    ensures
        r == (a@ == b@),
{
    let na = a.unicode_len();
    let nb = b.unicode_len();
    if na != nb {
        return false;
    }
    let mut i: usize = 0;
    while i < na
        invariant
            na == a@.len(),
            na == b@.len(),
            i <= na,
            forall|j: int| 0 <= j < i ==> a@[j] == b@[j],
        decreases na - i,
    {
        if a.get_char(i) != b.get_char(i) {
            return false;
        }
        i = i + 1;
    }
    proof {
        assert(a@ =~= b@);
    }
    true
}

/// True exactly when `prefix` is a prefix of `s`.
pub fn str_starts_with(s: &str, prefix: &str) -> (r: bool)
    ensures
        r == prefix@.is_prefix_of(s@),
{
    let np = prefix.unicode_len();
    let ns = s.unicode_len();
    if np > ns {
        return false;
    }
    let mut i: usize = 0;
    while i < np
        invariant
            np == prefix@.len(),
            ns == s@.len(),
            np <= ns,
            i <= np,
            forall|j: int| 0 <= j < i ==> prefix@[j] == s@[j],
        decreases np - i,
    {
        if prefix.get_char(i) != s.get_char(i) {
            return false;
        }
        i = i + 1;
    }
    proof {
        assert(prefix@ =~= s@.subrange(0, prefix@.len() as int));
    }
    true
}

/// True exactly when `s` is non-empty and ends with the character `c`.
pub fn str_ends_with_char(s: &str, c: char) -> (r: bool)
    ensures
        r == (s@.len() > 0 && s@.last() == c),
{
    let n = s.unicode_len();
    if n == 0 {
        return false;
    }
    s.get_char(n - 1) == c
}

/// Lowers one ASCII capital to its small form and leaves everything else.
pub open spec fn lower_char(c: char) -> char {
    if ('A' <= c) && (c <= 'Z') {
        (((c as u32) + 32) as u8) as char
    } else {
        c
    }
}

/// The string with every ASCII capital lowered.
pub open spec fn lower_chars(s: Seq<char>) -> Seq<char> {
    s.map_values(|c: char| lower_char(c))
}

/// True exactly when the strings are equal after lowering ASCII capitals.
pub fn str_eq_ignore_ascii_case(a: &str, b: &str) -> (r: bool)
    ensures
        r == (lower_chars(a@) == lower_chars(b@)),
{
    let na = a.unicode_len();
    let nb = b.unicode_len();
    if na != nb {
        proof {
            assert(lower_chars(a@).len() == a@.len());
            assert(lower_chars(b@).len() == b@.len());
        }
        return false;
    }
    let mut i: usize = 0;
    while i < na
        invariant
            na == a@.len(),
            na == b@.len(),
            i <= na,
            forall|j: int| 0 <= j < i ==> lower_char(a@[j]) == lower_char(b@[j]),
        decreases na - i,
    {
        let ca = lower_char_exec(a.get_char(i));
        let cb = lower_char_exec(b.get_char(i));
        if ca != cb {
            proof {
                assert(lower_chars(a@)[i as int] != lower_chars(b@)[i as int]);
            }
            return false;
        }
        i = i + 1;
    }
    proof {
        assert(lower_chars(a@) =~= lower_chars(b@));
    }
    true
}

/// ASCII whitespace, as option strings of repository source entries use it.
pub open spec fn is_ws_char(c: char) -> bool {
    c == ' ' || c == '\t' || c == '\n' || c == '\r'
}

/// `s[i..j)` is a whitespace-delimited token of `s`.
pub open spec fn token_at(s: Seq<char>, i: int, j: int) -> bool {
    &&& 0 <= i < j <= s.len()
    &&& forall|k: int| i <= k < j ==> !is_ws_char(#[trigger] s[k])
    &&& i == 0 || is_ws_char(s[i - 1])
    &&& j == s.len() || is_ws_char(s[j])
}

/// ASCII whitespace, as option strings of repository source entries use it.
fn is_ws(c: char) -> (r: bool)
    ensures
        r == is_ws_char(c),
{
    c == ' ' || c == '\t' || c == '\n' || c == '\r'
}

/// True when the characters of `prefix` stand at position `at` of `s`.
pub fn has_prefix_at(s: &str, prefix: &str, at: usize) -> (r: bool)
    ensures
        r == (at + prefix@.len() <= s@.len() && s@.subrange(
            at as int,
            at + prefix@.len(),
        ) == prefix@),
{
    let n = s.unicode_len();
    let m = prefix.unicode_len();
    if at > n || m > n - at {
        return false;
    }
    let mut k: usize = 0;
    while k < m
        invariant
            n == s@.len(),
            m == prefix@.len(),
            at + m <= n,
            k <= m,
            forall|t: int| 0 <= t < k ==> s@[at + t] == prefix@[t],
        decreases m - k,
    {
        if s.get_char(at + k) != prefix.get_char(k) {
            return false;
        }
        k = k + 1;
    }
    proof {
        assert(s@.subrange(at as int, at + prefix@.len()) =~= prefix@);
    }
    true
}

/// The end of the token starting at `p`: the next whitespace position, or
/// the end of the string.
fn token_end(s: &str, p: usize) -> (e: usize)
    requires
        p < s@.len(),
        !is_ws_char(s@[p as int]),
    ensures
        p < e <= s@.len(),
        forall|k: int| p <= k < e ==> !is_ws_char(#[trigger] s@[k]),
        e == s@.len() || is_ws_char(s@[e as int]),
{
    let n = s.unicode_len();
    let mut e = p + 1;
    while e < n
        invariant
            n == s@.len(),
            p < e <= n,
            forall|k: int| p <= k < e ==> !is_ws_char(#[trigger] s@[k]),
        decreases n - e,
    {
        if is_ws(s.get_char(e)) {
            return e;
        }
        e = e + 1;
    }
    e
}

/// The first whitespace-delimited token of `s` beginning with `prefix`,
/// with the prefix removed; `None` exactly when no token begins with it.
pub fn find_prefixed_token(s: &str, prefix: &str) -> (r: Option<String>)
    ensures
        r matches Some(v) ==> exists|i: int, j: int|
            {
                &&& #[trigger] token_at(s@, i, j)
                &&& prefix@.is_prefix_of(s@.subrange(i, j))
                &&& v@ == s@.subrange(i + prefix@.len(), j)
            },
        r is None ==> forall|i: int, j: int|
            #[trigger] token_at(s@, i, j) ==> !prefix@.is_prefix_of(s@.subrange(i, j)),
{
    let n = s.unicode_len();
    let m = prefix.unicode_len();
    let mut p: usize = 0;
    while p < n
        invariant
            n == s@.len(),
            m == prefix@.len(),
            p <= n,
            forall|i: int, j: int|
                #[trigger] token_at(s@, i, j) && i < p ==> !prefix@.is_prefix_of(
                    s@.subrange(i, j),
                ),
            p < n && !is_ws_char(s@[p as int]) ==> (p == 0 || is_ws_char(s@[p as int - 1])),
        decreases n - p,
    {
        if is_ws(s.get_char(p)) {
            p = p + 1;
        } else {
            let e = token_end(s, p);
            proof {
                assert(token_at(s@, p as int, e as int));
                assert forall|j: int| #[trigger] token_at(s@, p as int, j) implies j == e by {
                    if j < e {
                        assert(is_ws_char(s@[j]) || j == s@.len());
                        assert(!is_ws_char(s@[j]));
                    }
                    if j > e {
                        assert(!is_ws_char(s@[e as int]));
                        assert(e < s@.len() ==> is_ws_char(s@[e as int]));
                        assert(e as int == s@.len() ==> j > s@.len());
                    }
                }
            }
            if m <= e - p && has_prefix_at(s, prefix, p) {
                let v = s.substring_char(p + m, e).to_owned();
                proof {
                    let i = p as int;
                    let j = e as int;
                    assert(s@.subrange(i, j).take(m as int) =~= s@.subrange(i, i + m as int));
                    assert(prefix@.is_prefix_of(s@.subrange(i, j)));
                    assert(token_at(s@, i, j) && prefix@.is_prefix_of(s@.subrange(i, j)) && v@
                        == s@.subrange(i + prefix@.len(), j));
                }
                return Some(v);
            }
            proof {
                assert forall|i: int, j: int|
                    #[trigger] token_at(s@, i, j) && i < e ==> !prefix@.is_prefix_of(
                        s@.subrange(i, j),
                    ) by {
                    if token_at(s@, i, j) && i < e {
                        if i < p {
                        } else if i == p {
                            assert(j == e);
                            if prefix@.is_prefix_of(s@.subrange(i, j)) {
                                assert(m <= j - i);
                                assert(s@.subrange(i, j).take(m as int) =~= s@.subrange(
                                    i,
                                    i + m as int,
                                ));
                                assert(s@.subrange(i, i + m as int) == prefix@);
                                assert(false);
                            }
                        } else {
                            assert(!is_ws_char(s@[i - 1]));
                            assert(false);
                        }
                    }
                }
            }
            p = e;
        }
    }
    None
}

/// The string without one trailing slash, when it has one.
pub open spec fn trim_end_slash(s: Seq<char>) -> Seq<char> {
    if s.len() > 0 && s.last() == '/' {
        s.drop_last()
    } else {
        s
    }
}

/// Drops one trailing slash, when the string has one.
pub fn str_trim_end_slash(s: &str) -> (r: String)
    ensures
        r@ == trim_end_slash(s@),
{
    let n = s.unicode_len();
    if n > 0 && s.get_char(n - 1) == '/' {
        let r = s.substring_char(0, n - 1).to_owned();
        proof {
            assert(s@.subrange(0, n - 1) =~= s@.drop_last());
        }
        r
    } else {
        s.to_owned()
    }
}

/// The two string lists hold the same characters, position by position.
pub open spec fn str_vecs_like(a: Seq<String>, b: Seq<String>) -> bool {
    &&& a.len() == b.len()
    &&& forall|i: int| 0 <= i < a.len() ==> (#[trigger] a[i])@ == (#[trigger] b[i])@
}

/// True exactly when the two string lists hold the same characters,
/// position by position.
pub fn str_vec_eq(a: &Vec<String>, b: &Vec<String>) -> (r: bool)
    ensures
        r == str_vecs_like(a@, b@),
{
    let n = a.len();
    if n != b.len() {
        return false;
    }
    let mut i: usize = 0;
    while i < n
        invariant
            n == a@.len(),
            n == b@.len(),
            i <= n,
            forall|k: int| 0 <= k < i ==> (#[trigger] a@[k])@ == (#[trigger] b@[k])@,
        decreases n - i,
    {
        if !str_eq(a[i].as_str(), b[i].as_str()) {
            return false;
        }
        i = i + 1;
    }
    true
}

/// Clones a list of strings, keeping every character.
pub fn clone_string_vec(v: &Vec<String>) -> (r: Vec<String>)
    ensures
        str_vecs_like(v@, r@),
{
    let n = v.len();
    let mut out: Vec<String> = Vec::new();
    let mut i: usize = 0;
    while i < n
        invariant
            n == v@.len(),
            i <= n,
            out@.len() == i,
            forall|k: int| 0 <= k < i ==> (#[trigger] v@[k])@ == (#[trigger] out@[k])@,
        decreases n - i,
    {
        out.push(v[i].clone());
        i = i + 1;
    }
    out
}

/// Clones an optional string, keeping its characters.
pub fn clone_opt_string(s: &Option<String>) -> (r: Option<String>)
    ensures
        r is Some <==> s is Some,
        r matches Some(x) ==> s matches Some(y) && x@ == y@,
{
    match s {
        Some(v) => Some(v.clone()),
        None => None,
    }
}

/// Lowers one ASCII capital to its small form and leaves everything else.
fn lower_char_exec(c: char) -> (r: char)
    ensures
        r == lower_char(c),
{
    if 'A' <= c && c <= 'Z' {
        ((c as u32 + 32) as u8) as char
    } else {
        c
    }
}

} // verus!
