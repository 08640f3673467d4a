//! Expected digests and streaming verification of downloaded content.
//!
//! A [`Checksum`] names an algorithm and carries the expected digest bytes; a
//! [`ChecksumValidator`] is derived from it, fed the transferred bytes chunk
//! by chunk, and finally compared against the expectation.  The digests
//! themselves are computed by the `sha2` crate behind two trusted wrappers;
//! everything around them is verified.

use vstd::prelude::*;

use crate::hexcode::{all_hex_digits, decode_hex, encode_hex, hex_decoded, hex_encoded};

use sha2::Digest;

verus! {

/// SHA-256 digest of a byte string; the result depends on the bytes alone.
pub uninterp spec fn sha256_of(data: Seq<u8>) -> Seq<u8>;

/// SHA-512 digest of a byte string; the result depends on the bytes alone.
pub uninterp spec fn sha512_of(data: Seq<u8>) -> Seq<u8>;

/// Relies on `sha2::Sha256::digest`: the 32-byte SHA-256 digest of `data`,
/// computed from the bytes alone.
#[verifier::external_body]
fn sha256_digest(data: &[u8]) -> (r: Vec<u8>)
    ensures
        r@ == sha256_of(data@),
        r@.len() == 32,
{
    sha2::Sha256::digest(data).to_vec()
}

/// Relies on `sha2::Sha512::digest`: the 64-byte SHA-512 digest of `data`,
/// computed from the bytes alone.
#[verifier::external_body]
fn sha512_digest(data: &[u8]) -> (r: Vec<u8>)
    ensures
        r@ == sha512_of(data@),
        r@.len() == 64,
{
    sha2::Sha512::digest(data).to_vec()
}

/// Failures of digest parsing and of file-backed digest computation.
#[derive(Debug, Clone, PartialEq, Eq)]
pub enum ChecksumError {
    /// A file to be hashed could not be opened; carries the path.
    FailedToOpenFile(String),
    /// Reading the data to be hashed failed; carries the cause.
    ChecksumIOError(String),
    /// A digest string does not have the algorithm's expected length.
    BadLength,
    /// A digest string of the right length holds a non-hexadecimal character.
    HexError,
}

/// An expected digest, tagged with the algorithm that produced it.
#[derive(Debug, Clone, PartialEq, Eq)]
pub enum Checksum {
    Sha256(Vec<u8>),
    Sha512(Vec<u8>),
}

/// An incremental verifier bound to one [`Checksum`]: it accumulates the
/// bytes fed to it and finally compares their digest with the expectation.
#[derive(Debug, Clone)]
pub enum ChecksumValidator {
    Sha256 { expected: Vec<u8>, data: Vec<u8> },
    Sha512 { expected: Vec<u8>, data: Vec<u8> },
}

impl Checksum {
    /// The expected digest bytes.
    pub open spec fn digest(&self) -> Seq<u8> {
        match self {
            Checksum::Sha256(d) => d@,
            Checksum::Sha512(d) => d@,
        }
    }

    /// True for the SHA-256 variant.
    pub open spec fn is_sha256(&self) -> bool {
        self is Sha256
    }

    /// The digest of `data` under this checksum's algorithm.
    pub open spec fn digest_of(&self, data: Seq<u8>) -> Seq<u8> {
        match self {
            Checksum::Sha256(_) => sha256_of(data),
            Checksum::Sha512(_) => sha512_of(data),
        }
    }

    /// The expected digest has its algorithm's length.
    pub open spec fn wf(&self) -> bool {
        match self {
            Checksum::Sha256(d) => d@.len() == 32,
            Checksum::Sha512(d) => d@.len() == 64,
        }
    }

    /// The SHA-256 checksum of the given bytes.
    pub fn from_sha256_data(data: &[u8]) -> (r: Checksum)
        ensures
            r.is_sha256(),
            r.digest() == sha256_of(data@),
            r.wf(),
    {
        Checksum::Sha256(sha256_digest(data))
    }

    /// Parses an expected SHA-256 digest from its 64-digit hexadecimal
    /// rendering.  A string of any other length is rejected before decoding;
    /// a string of the right length with a non-hexadecimal character is
    /// rejected separately.
    pub fn from_sha256_str(s: &str) -> (r: Result<Checksum, ChecksumError>)
        ensures
            s@.len() != 64 ==> r == Err::<Checksum, ChecksumError>(ChecksumError::BadLength),
            s@.len() == 64 && !all_hex_digits(s@) ==> r == Err::<Checksum, ChecksumError>(
                ChecksumError::HexError,
            ),
            s@.len() == 64 && all_hex_digits(s@) ==> {
                &&& r is Ok
                &&& r->Ok_0.is_sha256()
                &&& r->Ok_0.digest() == hex_decoded(s@)
                &&& r->Ok_0.wf()
            },
    {
        if s.unicode_len() != 64 {
            return Err(ChecksumError::BadLength);
        }
        match decode_hex(s) {
            Some(d) => {
                proof {
                    lemma_hex_decoded_len(s@);
                }
                Ok(Checksum::Sha256(d))
            },
            None => Err(ChecksumError::HexError),
        }
    }

    /// Derives a fresh validator of the matching algorithm, seeded with
    /// nothing and expecting this digest.
    pub fn get_validator(&self) -> (v: ChecksumValidator)
        ensures
            v.is_sha256() == self.is_sha256(),
            v.expected() == self.digest(),
            v.fed() == Seq::<u8>::empty(),
    {
        match self {
            Checksum::Sha256(c) => ChecksumValidator::Sha256 { expected: c.clone(), data: Vec::new() },
            Checksum::Sha512(c) => ChecksumValidator::Sha512 { expected: c.clone(), data: Vec::new() },
        }
    }

    /// Verifies a whole byte string against this checksum in one step.
    pub fn cmp_data(&self, data: &[u8]) -> (r: bool)
        ensures
            r == (self.digest_of(data@) == self.digest()),
    {
        match self {
            Checksum::Sha256(c) => {
                let d = sha256_digest(data);
                bytes_equal(d.as_slice(), c.as_slice())
            },
            Checksum::Sha512(c) => {
                let d = sha512_digest(data);
                bytes_equal(d.as_slice(), c.as_slice())
            },
        }
    }

    /// Renders the checksum as `<algorithm>::<lowercase-hex-digest>`.
    pub fn display_string(&self) -> (r: String)
        ensures
            r@ == self.display_spec(),
    {
        let mut out: String;
        match self {
            Checksum::Sha256(d) => {
                out = String::from_str("sha256::");
                let hex = encode_hex(d.as_slice());
                out.append(hex.as_str());
            },
            Checksum::Sha512(d) => {
                out = String::from_str("sha512::");
                let hex = encode_hex(d.as_slice());
                out.append(hex.as_str());
            },
        }
        out
    }

    /// The rendering produced by [`Checksum::display_string`].
    pub open spec fn display_spec(&self) -> Seq<char> {
        match self {
            Checksum::Sha256(d) => "sha256::"@ + hex_encoded(d@),
            Checksum::Sha512(d) => "sha512::"@ + hex_encoded(d@),
        }
    }
}

impl ChecksumValidator {
    /// The digest this validator expects.
    pub open spec fn expected(&self) -> Seq<u8> {
        match self {
            ChecksumValidator::Sha256 { expected, .. } => expected@,
            ChecksumValidator::Sha512 { expected, .. } => expected@,
        }
    }

    /// All bytes fed so far, in order.
    pub open spec fn fed(&self) -> Seq<u8> {
        match self {
            ChecksumValidator::Sha256 { data, .. } => data@,
            ChecksumValidator::Sha512 { data, .. } => data@,
        }
    }

    /// True for the SHA-256 variant.
    pub open spec fn is_sha256(&self) -> bool {
        self is Sha256
    }

    /// The digest of the bytes fed so far.
    pub open spec fn computed(&self) -> Seq<u8> {
        match self {
            ChecksumValidator::Sha256 { data, .. } => sha256_of(data@),
            ChecksumValidator::Sha512 { data, .. } => sha512_of(data@),
        }
    }

    /// True when the bytes fed so far hash to the expected digest.
    pub open spec fn ok(&self) -> bool {
        self.computed() == self.expected()
    }

    /// Feeds one chunk; chunks accumulate in arrival order.
    pub fn update(&mut self, data: &[u8])
        ensures
            final(self).is_sha256() == old(self).is_sha256(),
            final(self).expected() == old(self).expected(),
            final(self).fed() == old(self).fed() + data@,
    {
        match self {
            ChecksumValidator::Sha256 { data: acc, .. } => append_bytes(acc, data),
            ChecksumValidator::Sha512 { data: acc, .. } => append_bytes(acc, data),
        }
    }

    /// Compares the digest of everything fed with the expected digest:
    /// exact byte equality, nothing weaker.
    pub fn finish(&self) -> (r: bool)
        ensures
            r == self.ok(),
    {
        match self {
            ChecksumValidator::Sha256 { expected, data } => {
                let d = sha256_digest(data.as_slice());
                bytes_equal(d.as_slice(), expected.as_slice())
            },
            ChecksumValidator::Sha512 { expected, data } => {
                let d = sha512_digest(data.as_slice());
                bytes_equal(d.as_slice(), expected.as_slice())
            },
        }
    }
}

/// The chunks of a transfer, laid end to end.
pub open spec fn concat_chunks(cs: Seq<Seq<u8>>) -> Seq<u8>
    decreases cs.len(),
{
    if cs.len() == 0 {
        seq![]
    } else {
        cs.first() + concat_chunks(cs.drop_first())
    }
}

/// What a validator holds after being fed the chunks of `cs` in order,
/// one [`ChecksumValidator::update`] per chunk, starting from `fed0`.
pub open spec fn fed_after_chunks(fed0: Seq<u8>, cs: Seq<Seq<u8>>) -> Seq<u8>
    decreases cs.len(),
{
    if cs.len() == 0 {
        fed0
    } else {
        fed_after_chunks(fed0 + cs.first(), cs.drop_first())
    }
}

/// Chunking does not matter: feeding content in any chunks, of any sizes,
/// leaves a validator holding exactly the starting bytes followed by the
/// chunks' concatenation — so [`ChecksumValidator::finish`] answers the
/// same however the content arrived.
pub proof fn lemma_chunking_irrelevant(fed0: Seq<u8>, cs: Seq<Seq<u8>>)
    ensures
        fed_after_chunks(fed0, cs) == fed0 + concat_chunks(cs),
    decreases cs.len(),
{
    if cs.len() == 0 {
        assert(fed0 + concat_chunks(cs) =~= fed0);
    } else {
        lemma_chunking_irrelevant(fed0 + cs.first(), cs.drop_first());
        assert((fed0 + cs.first()) + concat_chunks(cs.drop_first()) =~= fed0 + (cs.first()
            + concat_chunks(cs.drop_first())));
    }
}

/// A validator expecting the true digest of some content and fed exactly
/// that content — in whatever chunks — accepts.
pub proof fn lemma_true_digest_accepted(c: Checksum, v: ChecksumValidator, content: Seq<u8>)
    requires
        c.digest() == c.digest_of(content),
        v.is_sha256() == c.is_sha256(),
        v.expected() == c.digest(),
        v.fed() == content,
    ensures
        v.ok(),
{
}

/// Two validators of the same algorithm, fed the same bytes and expecting
/// the same digest, give the same verdict.
pub proof fn lemma_same_feed_same_verdict(a: ChecksumValidator, b: ChecksumValidator)
    requires
        a.is_sha256() == b.is_sha256(),
        a.fed() == b.fed(),
        a.expected() == b.expected(),
    ensures
        a.ok() == b.ok(),
{
}

/// A decoded digest string of 64 digits holds 32 bytes.
proof fn lemma_hex_decoded_len(s: Seq<char>)
    requires
        s.len() % 2 == 0,
    ensures
        hex_decoded(s).len() == s.len() / 2,
    decreases s.len(),
{
    if s.len() >= 2 {
        lemma_hex_decoded_len(s.skip(2));
    }
}

/// True exactly when the two byte strings are equal.
fn bytes_equal(a: &[u8], b: &[u8]) -> (r: bool)
    ensures
        r == (a@ == b@),
{
    if a.len() != b.len() {
        return false;
    }
    let n = a.len();
    let mut i: usize = 0;
    while i < n
        invariant
            n == a@.len(),
            n == b@.len(),
            i <= n,
            forall|j: int| 0 <= j < i ==> a@[j] == b@[j],
        decreases n - i,
    {
        if a[i] != b[i] {
            return false;
        }
        i = i + 1;
    }
    proof {
        assert(a@ =~= b@);
    }
    true
}

/// Appends every byte of `src` to `dst`, in order.
fn append_bytes(dst: &mut Vec<u8>, src: &[u8])
    ensures
        final(dst)@ == old(dst)@ + src@,
{
    let n = src.len();
    let mut i: usize = 0;
    while i < n
        invariant
            n == src@.len(),
            i <= n,
            dst@ == old(dst)@ + src@.take(i as int),
        decreases n - i,
    {
        dst.push(src[i]);
        proof {
            assert(old(dst)@ + src@.take(i as int) + seq![src@[i as int]] =~= old(dst)@
                + src@.take(i + 1));
        }
        i = i + 1;
    }
    proof {
        assert(old(dst)@ + src@.take(n as int) =~= old(dst)@ + src@);
    }
}

} // verus!
