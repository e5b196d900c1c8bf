//! Minimal CBOR reading primitives for the token formats this crate handles.
//!
//! Only the small subset needed for claims sets and AIF scopes is covered:
//! definite-length items whose head carries the argument in the shortest form
//! (as deterministic encoding demands).  The spec functions define the
//! accepted grammar; the executable readers are verified to follow them
//! exactly.

use vstd::prelude::*;

verus! {

/// Major type of an unsigned integer item.
pub const MAJOR_UINT: u8 = 0;

/// Major type of a byte string item.
pub const MAJOR_BSTR: u8 = 2;

/// Major type of a text string item.
pub const MAJOR_TSTR: u8 = 3;

/// Major type of an array item.
pub const MAJOR_ARRAY: u8 = 4;

/// Major type of a map item.
pub const MAJOR_MAP: u8 = 5;

/// The big-endian value of the `n` bytes of `b` starting at `lo`.
pub open spec fn be_val(b: Seq<u8>, lo: int, n: int) -> int
    decreases n,
{
    if n <= 0 {
        0
    } else {
        be_val(b, lo, n - 1) * 256 + b[lo + n - 1]
    }
}

/// How many bytes the shortest head encoding of argument `v` occupies.
pub open spec fn head_len(v: u64) -> int {
    if v < 24 {
        1
    } else if v < 256 {
        2
    } else if v < 65536 {
        3
    } else if v < 4294967296 {
        5
    } else {
        9
    }
}

/// Reads the head of one data item at `b[pos]`: its major type, its argument,
/// and the position just past the head.
///
/// Only the shortest (deterministic) argument encoding is accepted, and only
/// arguments that fit in 64 bits (additional information up to 27).
pub open spec fn spec_parse_head(b: Seq<u8>, pos: int) -> Option<(u8, u64, int)> {
    if 0 <= pos < b.len() {
        let major = b[pos] >> 5;
        let ai = b[pos] & 0x1f;
        if ai < 24 {
            Some((major, ai as u64, pos + 1))
        } else if ai == 24 {
            if pos + 2 <= b.len() && b[pos + 1] >= 24 {
                Some((major, b[pos + 1] as u64, pos + 2))
            } else {
                None
            }
        } else if ai == 25 {
            if pos + 3 <= b.len() && be_val(b, pos + 1, 2) >= 256 {
                Some((major, be_val(b, pos + 1, 2) as u64, pos + 3))
            } else {
                None
            }
        } else if ai == 26 {
            if pos + 5 <= b.len() && be_val(b, pos + 1, 4) >= 65536 {
                Some((major, be_val(b, pos + 1, 4) as u64, pos + 5))
            } else {
                None
            }
        } else if ai == 27 {
            if pos + 9 <= b.len() && be_val(b, pos + 1, 8) >= 4294967296 {
                Some((major, be_val(b, pos + 1, 8) as u64, pos + 9))
            } else {
                None
            }
        } else {
            None
        }
    } else {
        None
    }
}

/// Executable counterpart of [`spec_parse_head`].
pub fn parse_head(b: &[u8], pos: usize) -> (r: Option<(u8, u64, usize)>)
    ensures
        r is Some <==> spec_parse_head(b@, pos as int) is Some,
        r matches Some((major, v, end)) ==> spec_parse_head(b@, pos as int) == Some(
            (major, v, end as int),
        ),
{
    if pos >= b.len() {
        return None;
    }
    let ib = b[pos];
    let major = ib >> 5;
    let ai = ib & 0x1f;
    let remaining = b.len() - pos;
    if ai < 24 {
        Some((major, ai as u64, pos + 1))
    } else if ai == 24 {
        if remaining >= 2 && b[pos + 1] >= 24 {
            Some((major, b[pos + 1] as u64, pos + 2))
        } else {
            None
        }
    } else if ai == 25 {
        if remaining >= 3 {
            let v = (b[pos + 1] as u64) * 256 + (b[pos + 2] as u64);
            proof {
                reveal_with_fuel(be_val, 3);
            }
            if v >= 256 {
                Some((major, v, pos + 3))
            } else {
                None
            }
        } else {
            None
        }
    } else if ai == 26 {
        if remaining >= 5 {
            let v = ((b[pos + 1] as u64) * 16777216) + ((b[pos + 2] as u64) * 65536) + ((b[pos
                + 3] as u64) * 256) + (b[pos + 4] as u64);
            proof {
                reveal_with_fuel(be_val, 5);
            }
            if v >= 65536 {
                Some((major, v, pos + 5))
            } else {
                None
            }
        } else {
            None
        }
    } else if ai == 27 {
        if remaining >= 9 {
            let hi = ((b[pos + 1] as u64) * 16777216) + ((b[pos + 2] as u64) * 65536) + ((b[pos
                + 3] as u64) * 256) + (b[pos + 4] as u64);
            let lo = ((b[pos + 5] as u64) * 16777216) + ((b[pos + 6] as u64) * 65536) + ((b[pos
                + 7] as u64) * 256) + (b[pos + 8] as u64);
            let v = hi * 4294967296 + lo;
            proof {
                reveal_with_fuel(be_val, 9);
            }
            if v >= 4294967296 {
                Some((major, v, pos + 9))
            } else {
                None
            }
        } else {
            None
        }
    } else {
        None
    }
}

/// True when the two byte slices hold the same bytes.
pub fn bytes_eq(a: &[u8], b: &[u8]) -> (r: bool)
    ensures
        r == (a@ == b@),
{
    if a.len() != b.len() {
        return false;
    }
    for i in 0..a.len()
        invariant
            a@.len() == b@.len(),
            forall|j: int| 0 <= j < i ==> a@[j] == b@[j],
    {
        if a[i] != b[i] {
            return false;
        }
    }
    proof {
        assert(a@ =~= b@);
    }
    true
}

/// An owned copy of the given bytes.
pub fn clone_bytes(v: &[u8]) -> (r: Vec<u8>)
    ensures
        r@ == v@,
{
    let mut r: Vec<u8> = Vec::new();
    for i in 0..v.len()
        invariant
            r@ == v@.take(i as int),
    {
        r.push(v[i]);
        proof {
            assert(v@.take(i + 1) =~= v@.take(i as int).push(v@[i as int]));
        }
    }
    proof {
        assert(v@.take(v@.len() as int) =~= v@);
    }
    r
}

} // verus!
