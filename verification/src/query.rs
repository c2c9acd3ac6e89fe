//! Parsing of the query string that the provider's redirect carries.
//!
//! A query string is a `&`-separated list of segments; each segment is a
//! key, optionally followed by `=` and a value. Keys and values are
//! percent-decoded before use. The lookup returns the value of the first
//! segment whose decoded key matches.

use vstd::prelude::*;

use crate::encoding::bytes_eq;
use crate::encoding::percent_decode_bytes;
use crate::encoding::spec_percent_decode;

verus! {

/// The ampersand `&`, which separates query segments.
pub const AMPERSAND: u8 = 0x26;

/// The equals sign `=`, which separates a key from its value.
pub const EQUALS: u8 = 0x3d;

/// The position of the first occurrence of `b` in `s`, or `s.len()` when
/// `b` does not occur.
pub open spec fn spec_find_byte(s: Seq<u8>, b: u8) -> nat
    decreases s.len(),
{
    if s.len() == 0 {
        0
    } else if s[0] == b {
        0
    } else {
        1 + spec_find_byte(s.drop_first(), b)
    }
}

/// A position at or before the length, holding `b` unless it is the
/// length, with nothing equal to `b` before it, is exactly what
/// [`spec_find_byte`] returns.
pub proof fn lemma_find_byte_unique(s: Seq<u8>, b: u8, k: int)
    requires
        0 <= k <= s.len(),
        k < s.len() ==> s[k] == b,
        forall|j: int| 0 <= j < k ==> s[j] != b,
    ensures
        spec_find_byte(s, b) == k,
    decreases s.len(),
{
    if s.len() == 0 {
    } else if s[0] == b {
        assert(k == 0);
    } else {
        assert(k >= 1);
        lemma_find_byte_unique(s.drop_first(), b, k - 1);
    }
}

/// The key part of one query segment: what stands before the first `=`,
/// or the whole segment when it has none.
pub open spec fn spec_segment_key(seg: Seq<u8>) -> Seq<u8> {
    seg.take(spec_find_byte(seg, EQUALS) as int)
}

/// The value part of one query segment: what stands after the first `=`,
/// or nothing when the segment has none.
pub open spec fn spec_segment_value(seg: Seq<u8>) -> Seq<u8> {
    if spec_find_byte(seg, EQUALS) == seg.len() {
        Seq::empty()
    } else {
        seg.skip(spec_find_byte(seg, EQUALS) as int + 1)
    }
}

/// The percent-decoded value of the first query segment whose
/// percent-decoded key equals `key`, or nothing when no segment matches.
pub open spec fn spec_find_param(q: Seq<u8>, key: Seq<u8>) -> Option<Seq<u8>>
    decreases q.len(),
{
    let n = spec_find_byte(q, AMPERSAND) as int;
    let i = if n < q.len() {
        n
    } else {
        q.len() as int
    };
    let seg = q.take(i);
    if spec_percent_decode(spec_segment_key(seg)) == key {
        Some(spec_percent_decode(spec_segment_value(seg)))
    } else if i == q.len() {
        None
    } else {
        spec_find_param(q.skip(i + 1), key)
    }
}

/// The first position at or after `start` where `b` stands in `q`, or the
/// length of `q` when there is none.
pub fn find_byte_from(q: &[u8], start: usize, b: u8) -> (r: usize)
    requires
        start <= q@.len(),
    ensures
        start <= r <= q@.len(),
        r < q@.len() ==> q@[r as int] == b,
        forall|j: int| start <= j < r ==> q@[j] != b,
    decreases q@.len() - start,
{
    let mut i: usize = start;
    while i < q.len()
        invariant
            start <= i <= q@.len(),
            forall|j: int| start <= j < i ==> q@[j] != b,
        decreases q@.len() - i,
    {
        if q[i] == b {
            return i;
        }
        i += 1;
    }
    i
}

/// Look up a query parameter: percent-decode the value of the first
/// segment whose percent-decoded key equals `key`.
pub fn find_query_param(q: &[u8], key: &[u8]) -> (r: Option<Vec<u8>>)
    ensures
        match r {
            Some(v) => spec_find_param(q@, key@) == Some(v@),
            None => spec_find_param(q@, key@) is None,
        },
{
    let mut pos: usize = 0;
    proof {
        assert(q@.skip(0) =~= q@);
    }
    loop
        invariant
            pos <= q@.len(),
            spec_find_param(q@, key@) == spec_find_param(q@.skip(pos as int), key@),
        decreases q@.len() - pos,
    {
        let ghost rest = q@.skip(pos as int);
        let amp = find_byte_from(q, pos, AMPERSAND);
        let eq = find_byte_from(q, pos, EQUALS);
        proof {
            lemma_find_byte_unique(
                rest,
                AMPERSAND,
                if amp < q@.len() {
                    amp - pos
                } else {
                    rest.len() as int
                },
            );
        }
        let seg_end = if amp < q.len() {
            amp
        } else {
            q.len()
        };
        let ghost seg = rest.take(seg_end - pos);
        proof {
            assert(seg =~= q@.subrange(pos as int, seg_end as int));
            if eq < seg_end {
                lemma_find_byte_unique(seg, EQUALS, eq - pos);
            } else {
                lemma_find_byte_unique(seg, EQUALS, seg.len() as int);
            }
        }
        let key_end = if eq < seg_end {
            eq
        } else {
            seg_end
        };
        let key_bytes = vstd::slice::slice_subrange(q, pos, key_end);
        proof {
            assert(spec_segment_key(seg) =~= key_bytes@);
        }
        let decoded_key = percent_decode_bytes(key_bytes);
        if bytes_eq(decoded_key.as_slice(), key) {
            let value_bytes = if eq < seg_end {
                vstd::slice::slice_subrange(q, eq + 1, seg_end)
            } else {
                vstd::slice::slice_subrange(q, seg_end, seg_end)
            };
            proof {
                if eq < seg_end {
                    assert(spec_segment_value(seg) =~= value_bytes@);
                } else {
                    assert(spec_segment_value(seg) =~= value_bytes@);
                }
            }
            let decoded_value = percent_decode_bytes(value_bytes);
            return Some(decoded_value);
        }
        if amp >= q.len() {
            return None;
        }
        proof {
            assert(rest.skip(amp - pos + 1) =~= q@.skip(amp as int + 1));
        }
        pos = amp + 1;
    }
}

} // verus!
