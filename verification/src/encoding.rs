//! Percent-encoding and percent-decoding of URL components.
//!
//! Both directions are specified over byte sequences: a string is first
//! taken to its UTF-8 bytes, those bytes are encoded or decoded, and the
//! (always ASCII) encoded form is read back as characters. Decoding also
//! honours the `+`-for-space convention of form-encoded query strings.

use vstd::prelude::*;
use vstd::utf8::decode_utf8;
use vstd::utf8::encode_utf8;
use vstd::utf8::is_leading_byte_width_1;
use vstd::utf8::pop_first_scalar;
use vstd::utf8::valid_utf8;

verus! {

/// The percent sign `%`.
pub const PERCENT: u8 = 0x25;

/// The plus sign `+`, which form-encoded queries use for a space.
pub const PLUS: u8 = 0x2b;

/// The space character.
pub const SPACE: u8 = 0x20;

/// True of the bytes that percent-encoding leaves as they are: ASCII
/// letters, digits, `-`, `.`, `_` and `~`.
pub open spec fn spec_is_unreserved(b: u8) -> bool {
    (0x41 <= b <= 0x5a) || (0x61 <= b <= 0x7a) || (0x30 <= b <= 0x39) || b == 0x2d || b == 0x2e
        || b == 0x5f || b == 0x7e
}

/// The ASCII digit for a value below 16, upper case.
pub open spec fn spec_hex_digit(n: u8) -> u8
    recommends
        n < 16,
{
    if n < 10 {
        (0x30 + n) as u8
    } else {
        (0x37 + n) as u8
    }
}

/// True of the ASCII digits `0`-`9`, `A`-`F` and `a`-`f`.
pub open spec fn spec_is_hex(b: u8) -> bool {
    (0x30 <= b <= 0x39) || (0x41 <= b <= 0x46) || (0x61 <= b <= 0x66)
}

/// The value of one hex digit.
pub open spec fn spec_hex_val(b: u8) -> u8
    recommends
        spec_is_hex(b),
{
    if 0x30 <= b <= 0x39 {
        (b - 0x30) as u8
    } else if 0x41 <= b <= 0x46 {
        (b - 0x37) as u8
    } else {
        (b - 0x57) as u8
    }
}

/// The percent-encoding of one byte: the byte itself when unreserved,
/// `%XX` with upper-case hex digits otherwise.
pub open spec fn spec_encode_byte(b: u8) -> Seq<u8> {
    if spec_is_unreserved(b) {
        seq![b]
    } else {
        seq![PERCENT, spec_hex_digit(b / 16), spec_hex_digit(b % 16)]
    }
}

/// The percent-encoding of a byte sequence.
pub open spec fn spec_percent_encode(bs: Seq<u8>) -> Seq<u8>
    decreases bs.len(),
{
    if bs.len() == 0 {
        Seq::empty()
    } else {
        spec_encode_byte(bs[0]) + spec_percent_encode(bs.drop_first())
    }
}

/// The percent-decoding of a byte sequence: `%XX` with two hex digits
/// becomes the byte `XX`, `+` becomes a space, and every other byte
/// (including a `%` not followed by two hex digits) stays as it is.
pub open spec fn spec_percent_decode(bs: Seq<u8>) -> Seq<u8>
    decreases bs.len(),
{
    if bs.len() == 0 {
        Seq::empty()
    } else if bs[0] == PERCENT && bs.len() >= 3 && spec_is_hex(bs[1]) && spec_is_hex(bs[2]) {
        seq![(16 * spec_hex_val(bs[1]) + spec_hex_val(bs[2])) as u8] + spec_percent_decode(
            bs.skip(3),
        )
    } else if bs[0] == PLUS {
        seq![SPACE] + spec_percent_decode(bs.drop_first())
    } else {
        seq![bs[0]] + spec_percent_decode(bs.drop_first())
    }
}

/// The characters that an all-ASCII byte sequence spells.
pub open spec fn ascii_chars_of(bs: Seq<u8>) -> Seq<char> {
    Seq::new(bs.len(), |i: int| bs[i] as char)
}

/// The percent-encoded form of a character sequence: its UTF-8 bytes,
/// encoded, read back as ASCII characters.
pub open spec fn spec_percent_encoded(s: Seq<char>) -> Seq<char> {
    ascii_chars_of(spec_percent_encode(encode_utf8(s)))
}

/// Executable test for an unreserved byte.
pub fn is_unreserved(b: u8) -> (r: bool)
    ensures
        r == spec_is_unreserved(b),
{
    (0x41 <= b && b <= 0x5a) || (0x61 <= b && b <= 0x7a) || (0x30 <= b && b <= 0x39) || b == 0x2d
        || b == 0x2e || b == 0x5f || b == 0x7e
}

/// Executable test for a hex digit.
pub fn is_hex(b: u8) -> (r: bool)
    ensures
        r == spec_is_hex(b),
{
    (0x30 <= b && b <= 0x39) || (0x41 <= b && b <= 0x46) || (0x61 <= b && b <= 0x66)
}

/// Executable hex digit of a value below 16.
pub fn hex_digit(n: u8) -> (r: u8)
    requires
        n < 16,
    ensures
        r == spec_hex_digit(n),
{
    if n < 10 {
        0x30 + n
    } else {
        0x37 + n
    }
}

/// Executable value of a hex digit.
pub fn hex_val(b: u8) -> (r: u8)
    requires
        spec_is_hex(b),
    ensures
        r == spec_hex_val(b),
{
    if 0x30 <= b && b <= 0x39 {
        b - 0x30
    } else if 0x41 <= b && b <= 0x46 {
        b - 0x37
    } else {
        b - 0x57
    }
}

/// Every byte of a percent-encoded sequence is ASCII.
pub proof fn lemma_percent_encode_ascii(bs: Seq<u8>)
    ensures
        forall|i: int|
            0 <= i < spec_percent_encode(bs).len() ==> #[trigger] spec_percent_encode(bs)[i]
                < 0x80,
    decreases bs.len(),
{
    if bs.len() != 0 {
        lemma_percent_encode_ascii(bs.drop_first());
        let head = spec_encode_byte(bs[0]);
        let tail = spec_percent_encode(bs.drop_first());
        assert(spec_percent_encode(bs) == head + tail);
        assert forall|i: int| 0 <= i < (head + tail).len() implies #[trigger] (head + tail)[i]
            < 0x80 by {
            if i < head.len() {
                assert((head + tail)[i] == head[i]);
            } else {
                assert((head + tail)[i] == tail[i - head.len()]);
            }
        }
    }
}

/// Percent-encoding of a sequence extended by one byte.
pub proof fn lemma_percent_encode_push(s: Seq<u8>, x: u8)
    ensures
        spec_percent_encode(s.push(x)) == spec_percent_encode(s) + spec_encode_byte(x),
    decreases s.len(),
{
    if s.len() == 0 {
        assert(s.push(x)[0] == x);
        assert(s.push(x).drop_first() =~= Seq::<u8>::empty());
        assert(spec_percent_encode(Seq::<u8>::empty()) == Seq::<u8>::empty());
        assert(spec_percent_encode(s.push(x)) =~= spec_encode_byte(x));
        assert(spec_percent_encode(s) + spec_encode_byte(x) =~= spec_encode_byte(x));
    } else {
        assert(s.push(x)[0] == s[0]);
        assert(s.push(x).drop_first() =~= s.drop_first().push(x));
        lemma_percent_encode_push(s.drop_first(), x);
        assert((spec_encode_byte(s[0]) + spec_percent_encode(s.drop_first())) + spec_encode_byte(x)
            =~= spec_encode_byte(s[0]) + (spec_percent_encode(s.drop_first()) + spec_encode_byte(
            x,
        )));
    }
}

/// Percent-decoding undoes percent-encoding on any byte sequence.
pub proof fn lemma_percent_round_trip(bs: Seq<u8>)
    ensures
        spec_percent_decode(spec_percent_encode(bs)) == bs,
    decreases bs.len(),
{
    if bs.len() == 0 {
        assert(spec_percent_decode(spec_percent_encode(bs)) =~= bs);
    } else {
        let b = bs[0];
        let head = spec_encode_byte(b);
        let tail = spec_percent_encode(bs.drop_first());
        lemma_percent_round_trip(bs.drop_first());
        if spec_is_unreserved(b) {
            let whole = seq![b] + tail;
            assert(whole[0] == b);
            assert(whole.drop_first() =~= tail);
            assert(b != PERCENT && b != PLUS);
            assert(spec_percent_decode(whole) == seq![b] + spec_percent_decode(tail));
            assert(seq![b] + bs.drop_first() =~= bs);
        } else {
            let h1 = spec_hex_digit(b / 16);
            let h2 = spec_hex_digit(b % 16);
            let whole = seq![PERCENT, h1, h2] + tail;
            assert(whole[0] == PERCENT && whole[1] == h1 && whole[2] == h2);
            assert(whole.len() >= 3);
            assert(spec_is_hex(h1) && spec_is_hex(h2));
            assert(whole.skip(3) =~= tail);
            assert(spec_hex_val(h1) == b / 16 && spec_hex_val(h2) == b % 16);
            assert(16 * (b / 16) + b % 16 == b) by (nonlinear_arith);
            assert(spec_percent_decode(whole) == seq![b] + spec_percent_decode(tail));
            assert(seq![b] + bs.drop_first() =~= bs);
        }
    }
}

/// A sequence of ASCII bytes is valid UTF-8 and decodes to one character
/// per byte.
pub proof fn lemma_ascii_bytes_decode(bs: Seq<u8>)
    requires
        forall|i: int| 0 <= i < bs.len() ==> #[trigger] bs[i] < 0x80,
    ensures
        valid_utf8(bs),
        decode_utf8(bs) == ascii_chars_of(bs),
    decreases bs.len(),
{
    if bs.len() == 0 {
        assert(decode_utf8(bs) =~= ascii_chars_of(bs));
    } else {
        let b = bs[0];
        assert(is_leading_byte_width_1(b));
        assert(b & 0x7f == b) by (bit_vector)
            requires
                b < 0x80,
        ;
        assert(pop_first_scalar(bs) =~= bs.drop_first());
        lemma_ascii_bytes_decode(bs.drop_first());
        assert(decode_utf8(bs) =~= ascii_chars_of(bs));
    }
}

/// Percent-encode the bytes of a slice.
pub fn percent_encode_bytes(bs: &[u8]) -> (r: Vec<u8>)
    ensures
        r@ == spec_percent_encode(bs@),
{
    let mut out: Vec<u8> = Vec::new();
    let mut i: usize = 0;
    while i < bs.len()
        invariant
            i <= bs@.len(),
            out@ == spec_percent_encode(bs@.take(i as int)),
        decreases bs@.len() - i,
    {
        let b = bs[i];
        if is_unreserved(b) {
            out.push(b);
        } else {
            out.push(PERCENT);
            out.push(hex_digit(b / 16));
            out.push(hex_digit(b % 16));
        }
        proof {
            let pre = bs@.take(i as int);
            lemma_percent_encode_push(pre, b);
            assert(bs@.take(i as int + 1) =~= pre.push(b));
            assert(out@ =~= spec_percent_encode(pre) + spec_encode_byte(b));
        }
        i += 1;
    }
    proof {
        assert(bs@.take(bs@.len() as int) =~= bs@);
    }
    out
}

/// Percent-decode the bytes of a slice.
pub fn percent_decode_bytes(bs: &[u8]) -> (r: Vec<u8>)
    ensures
        r@ == spec_percent_decode(bs@),
{
    let mut out: Vec<u8> = Vec::new();
    let mut i: usize = 0;
    proof {
        assert(bs@.skip(0) =~= bs@);
        assert(Seq::<u8>::empty() + spec_percent_decode(bs@) =~= spec_percent_decode(bs@));
    }
    while i < bs.len()
        invariant
            i <= bs@.len(),
            spec_percent_decode(bs@) == out@ + spec_percent_decode(bs@.skip(i as int)),
        decreases bs@.len() - i,
    {
        let ghost rest = bs@.skip(i as int);
        proof {
            assert(rest.len() == bs@.len() - i);
            assert(rest[0] == bs@[i as int]);
        }
        let ghost out0 = out@;
        let b = bs[i];
        if b == PERCENT && bs.len() - i >= 3 && is_hex(bs[i + 1]) && is_hex(bs[i + 2]) {
            proof {
                assert(rest[1] == bs@[i as int + 1]);
                assert(rest[2] == bs@[i as int + 2]);
            }
            let v = 16 * hex_val(bs[i + 1]) + hex_val(bs[i + 2]);
            out.push(v);
            proof {
                assert(rest.skip(3) =~= bs@.skip(i as int + 3));
                assert(spec_percent_decode(rest) == seq![v] + spec_percent_decode(
                    bs@.skip(i as int + 3),
                ));
                assert(out@ + spec_percent_decode(bs@.skip(i as int + 3)) =~= out0
                    + spec_percent_decode(rest));
            }
            i += 3;
        } else {
            let d = if b == PLUS {
                SPACE
            } else {
                b
            };
            out.push(d);
            proof {
                assert(rest.drop_first() =~= bs@.skip(i as int + 1));
                assert(spec_percent_decode(rest) == seq![d] + spec_percent_decode(
                    bs@.skip(i as int + 1),
                ));
                assert(out@ + spec_percent_decode(bs@.skip(i as int + 1)) =~= out0
                    + spec_percent_decode(rest));
            }
            i += 1;
        }
    }
    proof {
        assert(bs@.skip(bs@.len() as int) =~= Seq::<u8>::empty());
        assert(out@ =~= out@ + spec_percent_decode(Seq::<u8>::empty()));
    }
    out
}

/// Compare two byte slices.
pub fn bytes_eq(a: &[u8], b: &[u8]) -> (r: bool)
    ensures
        r == (a@ == b@),
{
    if a.len() != b.len() {
        proof {
            assert(a@.len() != b@.len());
        }
        return false;
    }
    let mut i: usize = 0;
    while i < a.len()
        invariant
            a@.len() == b@.len(),
            i <= a@.len(),
            forall|j: int| 0 <= j < i ==> a@[j] == b@[j],
        decreases a@.len() - i,
    {
        if a[i] != b[i] {
            return false;
        }
        i += 1;
    }
    proof {
        assert(a@ =~= b@);
    }
    true
}

/// Compare two string slices by their UTF-8 bytes; equal bytes mean
/// equal characters.
pub fn str_eq(a: &str, b: &str) -> (r: bool)
    ensures
        r == (a@ == b@),
{
    let r = bytes_eq(a.as_bytes(), b.as_bytes());
    proof {
        vstd::utf8::encode_utf8_decode_utf8(a@);
        vstd::utf8::encode_utf8_decode_utf8(b@);
    }
    r
}

/// Relies on `String::from_utf8`: a byte vector that is valid UTF-8 turns
/// into the string of exactly the characters it encodes.
#[verifier::external_body]
pub fn string_of_utf8(b: Vec<u8>) -> (r: String)
    requires
        valid_utf8(b@),
    ensures
        r@ == decode_utf8(b@),
{
    match String::from_utf8(b) {
        Ok(s) => s,
        Err(_) => String::new(),
    }
}

/// Relies on `String::from_utf8_lossy`: bytes that are valid UTF-8 decode
/// to exactly their characters (invalid sequences are replaced, and then
/// nothing is promised).
#[verifier::external_body]
pub fn string_of_bytes_lossy(b: &Vec<u8>) -> (r: String)
    ensures
        valid_utf8(b@) ==> r@ == decode_utf8(b@),
{
    String::from_utf8_lossy(b.as_slice()).into_owned()
}

/// Percent-encode a string: its UTF-8 bytes are encoded and the ASCII
/// result is returned as a string.
pub fn percent_encode_str(s: &str) -> (r: String)
    ensures
        r@ == spec_percent_encoded(s@),
{
    let bytes = s.as_bytes();
    let enc = percent_encode_bytes(bytes);
    proof {
        lemma_percent_encode_ascii(bytes@);
        lemma_ascii_bytes_decode(enc@);
    }
    string_of_utf8(enc)
}

} // verus!
