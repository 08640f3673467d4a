//! Lowercase hexadecimal encoding and decoding of byte strings, verified
//! against a direct mathematical description.  Digest strings are parsed and
//! rendered through these functions.

use vstd::prelude::*;

verus! {

/// True when `c` is an ASCII hexadecimal digit (either case).
pub open spec fn is_hex_digit(c: char) -> bool {
    (('0' <= c) && (c <= '9')) || (('a' <= c) && (c <= 'f')) || (('A' <= c) && (c <= 'F'))
}

/// Numeric value of one hexadecimal digit.
pub open spec fn hex_digit_value(c: char) -> u8
    recommends
        is_hex_digit(c),
{
    if ('0' <= c) && (c <= '9') {
        ((c as u32) - ('0' as u32)) as u8
    } else if ('a' <= c) && (c <= 'f') {
        ((c as u32) - ('a' as u32) + 10) as u8
    } else {
        ((c as u32) - ('A' as u32) + 10) as u8
    }
}

/// The byte written as the two digits `hi` then `lo`.
pub open spec fn hex_byte(hi: char, lo: char) -> u8
    recommends
        is_hex_digit(hi),
        is_hex_digit(lo),
{
    (hex_digit_value(hi) * 16 + hex_digit_value(lo)) as u8
}

/// Every character of `s` is a hexadecimal digit.
pub open spec fn all_hex_digits(s: Seq<char>) -> bool {
    forall|i: int| 0 <= i < s.len() ==> is_hex_digit(#[trigger] s[i])
}

/// The bytes written by an even-length string of hexadecimal digits,
/// two digits per byte, high digit first.
pub open spec fn hex_decoded(s: Seq<char>) -> Seq<u8>
    recommends
        s.len() % 2 == 0,
    decreases s.len(),
{
    if s.len() < 2 {
        seq![]
    } else {
        seq![hex_byte(s[0], s[1])] + hex_decoded(s.skip(2))
    }
}

/// The lowercase digit for a value below sixteen.
pub open spec fn hex_char_lower(v: u8) -> char
    recommends
        v < 16,
{
    if v < 10 {
        ((v as u32) + ('0' as u32)) as char
    } else {
        ((v as u32) - 10 + ('a' as u32)) as char
    }
}

/// The lowercase hexadecimal rendering of `b`, two digits per byte.
pub open spec fn hex_encoded(b: Seq<u8>) -> Seq<char>
    decreases b.len(),
{
    if b.len() == 0 {
        seq![]
    } else {
        seq![hex_char_lower(b[0] / 16), hex_char_lower((b[0] % 16) as u8)] + hex_encoded(
            b.skip(1),
        )
    }
}

proof fn lemma_hex_decoded_step(s: Seq<char>, i: int)
    requires
        0 <= i,
        i % 2 == 0,
        i + 2 <= s.len(),
    ensures
        hex_decoded(s.take(i + 2)) == hex_decoded(s.take(i)).push(hex_byte(s[i], s[i + 1])),
    decreases i,
{
    if i == 0 {
        let t = s.take(2);
        assert(t.len() == 2 && t[0] == s[0] && t[1] == s[1]);
        assert(t.skip(2) =~= Seq::<char>::empty());
        assert(hex_decoded(t.skip(2)) =~= Seq::<u8>::empty());
        assert(hex_decoded(t) =~= seq![hex_byte(s[0], s[1])]);
        assert(s.take(0) =~= Seq::<char>::empty());
        assert(hex_decoded(s.take(0)) =~= Seq::<u8>::empty());
        assert(hex_decoded(s.take(0)).push(hex_byte(s[0], s[1])) =~= seq![
            hex_byte(s[0], s[1]),
        ]);
    } else {
        lemma_hex_decoded_step(s.skip(2), i - 2);
        assert(s.take(i + 2).skip(2) =~= s.skip(2).take(i));
        assert(s.take(i).skip(2) =~= s.skip(2).take(i - 2));
        assert(s.skip(2)[i - 2] == s[i]);
        assert(s.skip(2)[i - 1] == s[i + 1]);
    }
}

proof fn lemma_hex_encoded_step(b: Seq<u8>, i: int)
    requires
        0 <= i,
        i + 1 <= b.len(),
    ensures
        hex_encoded(b.take(i + 1)) == hex_encoded(b.take(i)).push(hex_char_lower(b[i] / 16)).push(
            hex_char_lower((b[i] % 16) as u8),
        ),
    decreases i,
{
    if i == 0 {
        let t = b.take(1);
        assert(t.len() == 1 && t[0] == b[0]);
        assert(t.skip(1) =~= Seq::<u8>::empty());
        assert(hex_encoded(t.skip(1)) =~= Seq::<char>::empty());
        assert(hex_encoded(t) =~= seq![
            hex_char_lower(b[0] / 16),
            hex_char_lower((b[0] % 16) as u8),
        ]);
        assert(b.take(0) =~= Seq::<u8>::empty());
        assert(hex_encoded(b.take(0)) =~= Seq::<char>::empty());
    } else {
        lemma_hex_encoded_step(b.skip(1), i - 1);
        assert(b.take(i + 1).skip(1) =~= b.skip(1).take(i));
        assert(b.take(i).skip(1) =~= b.skip(1).take(i - 1));
        assert(b.skip(1)[i - 1] == b[i]);
        assert(hex_encoded(b.take(i + 1)) =~= hex_encoded(b.take(i)).push(
            hex_char_lower(b[i] / 16),
        ).push(hex_char_lower((b[i] % 16) as u8)));
    }
}

/// The hexadecimal rendering of a byte string has two digits per byte.
pub proof fn lemma_hex_encoded_len(b: Seq<u8>)
    ensures
        hex_encoded(b).len() == 2 * b.len(),
    decreases b.len(),
{
    if b.len() > 0 {
        lemma_hex_encoded_len(b.skip(1));
    }
}

/// Numeric value of one digit, or `None` when `c` is not a digit.
fn hex_digit(c: char) -> (r: Option<u8>)
    ensures
        r is Some <==> is_hex_digit(c),
        r is Some ==> r->0 == hex_digit_value(c),
{
    if '0' <= c && c <= '9' {
        Some((c as u32 - '0' as u32) as u8)
    } else if 'a' <= c && c <= 'f' {
        Some((c as u32 - 'a' as u32 + 10) as u8)
    } else if 'A' <= c && c <= 'F' {
        Some((c as u32 - 'A' as u32 + 10) as u8)
    } else {
        None
    }
}

/// Decodes a string of hexadecimal digits into the bytes it writes.
/// Fails exactly when the length is odd or a character is not a digit.
pub fn decode_hex(s: &str) -> (r: Option<Vec<u8>>)
    ensures
        r is Some <==> (s@.len() % 2 == 0 && all_hex_digits(s@)),
        r is Some ==> r->0@ == hex_decoded(s@),
{
    let n = s.unicode_len();
    if n % 2 != 0 {
        return None;
    }
    let mut out: Vec<u8> = Vec::new();
    let mut i: usize = 0;
    proof {
        assert(s@.take(0) =~= seq![]);
    }
    while i < n
        invariant
            n == s@.len(),
            n % 2 == 0,
            i % 2 == 0,
            i <= n,
            all_hex_digits(s@.take(i as int)),
            out@ == hex_decoded(s@.take(i as int)),
        decreases n - i,
    {
        let hi = match hex_digit(s.get_char(i)) {
            Some(v) => v,
            None => {
                return None;
            },
        };
        let lo = match hex_digit(s.get_char(i + 1)) {
            Some(v) => v,
            None => {
                return None;
            },
        };
        out.push(hi * 16 + lo);
        proof {
            lemma_hex_decoded_step(s@, i as int);
            assert forall|j: int| 0 <= j < i + 2 implies is_hex_digit(#[trigger] s@.take(
                i + 2,
            )[j]) by {
                if j < i {
                    assert(s@.take(i as int)[j] == s@.take(i + 2)[j]);
                }
            }
        }
        i = i + 2;
    }
    proof {
        assert(s@.take(n as int) =~= s@);
    }
    Some(out)
}

/// Relies on `String::push`: appends one character to the end of the string.
#[verifier::external_body]
fn push_char(s: &mut String, c: char)
    ensures
        final(s)@ == old(s)@.push(c),
{
    s.push(c);
}

/// The lowercase digit for a value below sixteen.
fn hex_char(v: u8) -> (c: char)
    requires
        v < 16,
    ensures
        c == hex_char_lower(v),
{
    if v < 10 {
        (v as u32 + '0' as u32) as u8 as char
    } else {
        (v as u32 - 10 + 'a' as u32) as u8 as char
    }
}

/// Renders bytes as lowercase hexadecimal, two digits per byte.
pub fn encode_hex(data: &[u8]) -> (r: String)
    ensures
        r@ == hex_encoded(data@),
{
    let mut out = String::new();
    let n = data.len();
    let mut i: usize = 0;
    proof {
        assert(data@.take(0) =~= seq![]);
        assert(hex_encoded(data@.take(0)) =~= seq![]);
    }
    while i < n
        invariant
            n == data@.len(),
            i <= n,
            out@ == hex_encoded(data@.take(i as int)),
        decreases n - i,
    {
        let b = data[i];
        push_char(&mut out, hex_char(b / 16));
        push_char(&mut out, hex_char(b % 16));
        proof {
            lemma_hex_encoded_step(data@, i as int);
        }
        i = i + 1;
    }
    proof {
        assert(data@.take(n as int) =~= data@);
    }
    out
}

} // verus!
