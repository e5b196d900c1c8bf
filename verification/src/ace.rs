//! Token-side data of the ACE framework: protected-message headers and the
//! CWT claims set carried inside a bearer token.
//!
//! The claims set accepted here is a deterministically encoded CBOR map whose
//! entries appear in ascending key order, restricted to the claims this core
//! acts on: audience (key 3), expiry (key 4), not-before (key 5) and the AIF
//! scope bytes (key 9, a byte string, and the only required entry).

use vstd::prelude::*;

use crate::cbor::{
    bytes_eq, parse_head, spec_parse_head, MAJOR_BSTR, MAJOR_MAP, MAJOR_TSTR, MAJOR_UINT,
};

verus! {

/// COSE-derived metadata of an incoming protected message.
///
/// Only what this core reads is kept: the algorithm identifier and the
/// initialization vector.
pub struct HeaderMap {
    /// COSE algorithm identifier of the protection applied to the token.
    pub alg: Option<i32>,
    /// Initialization vector of the token's encryption.
    pub iv: Option<Vec<u8>>,
}

/// CWT claims-set key of the audience claim.
pub const CLAIM_AUD: u64 = 3;

/// CWT claims-set key of the expiry claim.
pub const CLAIM_EXP: u64 = 4;

/// CWT claims-set key of the not-before claim.
pub const CLAIM_NBF: u64 = 5;

/// CWT claims-set key of the scope claim.
pub const CLAIM_SCOPE: u64 = 9;

/// The decoded content of a bearer token.
pub struct CwtClaimsSet {
    /// The audience the token is addressed to (UTF-8 bytes of a text string).
    pub aud: Option<Vec<u8>>,
    /// Expiry time in seconds since the epoch.
    pub exp: Option<u64>,
    /// Not-before time in seconds since the epoch.
    pub nbf: Option<u64>,
    /// The granted scope, as undecoded AIF bytes.
    pub scope: Vec<u8>,
}

/// Mathematical model of a [`CwtClaimsSet`].
pub ghost struct CwtClaimsView {
    /// Model of [`CwtClaimsSet::aud`].
    pub aud: Option<Seq<u8>>,
    /// Model of [`CwtClaimsSet::exp`].
    pub exp: Option<u64>,
    /// Model of [`CwtClaimsSet::nbf`].
    pub nbf: Option<u64>,
    /// Model of [`CwtClaimsSet::scope`].
    pub scope: Seq<u8>,
}

impl View for CwtClaimsSet {
    type V = CwtClaimsView;

    open spec fn view(&self) -> CwtClaimsView {
        CwtClaimsView {
            aud: match self.aud {
                Some(a) => Some(a@),
                None => None,
            },
            exp: self.exp,
            nbf: self.nbf,
            scope: self.scope@,
        }
    }
}

/// Reads an unsigned-integer item at `b[pos]`: its value and the position
/// just past it.
pub open spec fn spec_parse_uint_item(b: Seq<u8>, pos: int) -> Option<(u64, int)> {
    match spec_parse_head(b, pos) {
        Some((major, v, end)) => if major == MAJOR_UINT {
            Some((v, end))
        } else {
            None
        },
        None => None,
    }
}

/// Reads a string item of the given major type at `b[pos]`: its content bytes
/// and the position just past it.
pub open spec fn spec_parse_str_item(b: Seq<u8>, pos: int, major: u8) -> Option<(Seq<u8>, int)> {
    match spec_parse_head(b, pos) {
        Some((m, v, end)) => if m == major && end + v <= b.len() {
            Some((b.subrange(end, end + v as int), end + v as int))
        } else {
            None
        },
        None => None,
    }
}

/// Reads an optional map entry with unsigned-integer key `key` and an
/// unsigned-integer value.  Absence (a different upcoming key, or no valid
/// key item at all) leaves the position unchanged; a present key with a
/// malformed value fails.
pub open spec fn spec_opt_uint_entry(b: Seq<u8>, pos: int, key: u64) -> Option<
    (Option<u64>, int),
> {
    match spec_parse_uint_item(b, pos) {
        Some((k, end)) => if k == key {
            match spec_parse_uint_item(b, end) {
                Some((v, end2)) => Some((Some(v), end2)),
                None => None,
            }
        } else {
            Some((None, pos))
        },
        None => Some((None, pos)),
    }
}

/// Reads an optional map entry with unsigned-integer key `key` and a string
/// value of the given major type, in the manner of [`spec_opt_uint_entry`].
pub open spec fn spec_opt_str_entry(b: Seq<u8>, pos: int, key: u64, major: u8) -> Option<
    (Option<Seq<u8>>, int),
> {
    match spec_parse_uint_item(b, pos) {
        Some((k, end)) => if k == key {
            match spec_parse_str_item(b, end, major) {
                Some((v, end2)) => Some((Some(v), end2)),
                None => None,
            }
        } else {
            Some((None, pos))
        },
        None => Some((None, pos)),
    }
}

/// How many of the optional claims are present.
pub open spec fn spec_present_count(
    aud: Option<Seq<u8>>,
    exp: Option<u64>,
    nbf: Option<u64>,
) -> int {
    (if aud is Some {
        1int
    } else {
        0int
    }) + (if exp is Some {
        1int
    } else {
        0int
    }) + (if nbf is Some {
        1int
    } else {
        0int
    })
}

/// The claims set encoded by `b`, if `b` is a deterministically encoded
/// claims-set map as described in the module documentation; `None` otherwise.
pub open spec fn spec_decode_claims(b: Seq<u8>) -> Option<CwtClaimsView> {
    match spec_parse_head(b, 0) {
        Some((m, n, p0)) => if m == MAJOR_MAP {
            match spec_opt_str_entry(b, p0, CLAIM_AUD, MAJOR_TSTR) {
                Some((aud, p1)) => match spec_opt_uint_entry(b, p1, CLAIM_EXP) {
                    Some((exp, p2)) => match spec_opt_uint_entry(b, p2, CLAIM_NBF) {
                        Some((nbf, p3)) => match spec_parse_uint_item(b, p3) {
                            Some((k, p4)) => if k == CLAIM_SCOPE {
                                match spec_parse_str_item(b, p4, MAJOR_BSTR) {
                                    Some((scope, p5)) => if p5 == b.len() && n
                                        == 1 + spec_present_count(aud, exp, nbf) {
                                        Some(CwtClaimsView { aud, exp, nbf, scope })
                                    } else {
                                        None
                                    },
                                    None => None,
                                }
                            } else {
                                None
                            },
                            None => None,
                        },
                        None => None,
                    },
                    None => None,
                },
                None => None,
            }
        } else {
            None
        },
        None => None,
    }
}

/// Executable counterpart of [`spec_parse_uint_item`].
pub fn parse_uint_item(b: &[u8], pos: usize) -> (r: Option<(u64, usize)>)
    ensures
        r is Some <==> spec_parse_uint_item(b@, pos as int) is Some,
        r matches Some((v, end)) ==> spec_parse_uint_item(b@, pos as int) == Some((v, end as int)),
{
    match parse_head(b, pos) {
        Some((major, v, end)) => if major == MAJOR_UINT {
            Some((v, end))
        } else {
            None
        },
        None => None,
    }
}

/// Executable counterpart of [`spec_parse_str_item`].
pub fn parse_str_item(b: &[u8], pos: usize, major: u8) -> (r: Option<(Vec<u8>, usize)>)
    ensures
        r is Some <==> spec_parse_str_item(b@, pos as int, major) is Some,
        r matches Some((v, end)) ==> spec_parse_str_item(b@, pos as int, major) == Some(
            (v@, end as int),
        ),
{
    match parse_head(b, pos) {
        Some((m, v, end)) => {
            proof {
                assert(end <= b@.len());
            }
            if m == major && v <= (b.len() - end) as u64 {
                let vl = v as usize;
                let blen = b.len();
                let mut content: Vec<u8> = Vec::new();
                for i in 0..vl
                    invariant
                        end + vl <= blen,
                        blen == b@.len(),
                        content@ == b@.subrange(end as int, end + i),
                {
                    content.push(b[end + i]);
                    proof {
                        assert(b@.subrange(end as int, end + i + 1) =~= b@.subrange(
                            end as int,
                            end + i,
                        ).push(b@[end + i]));
                    }
                }
                Some((content, end + vl))
            } else {
                None
            }
        },
        None => None,
    }
}

/// Decodes a claims set.
///
/// Returns the decoded claims exactly when [`spec_decode_claims`] accepts the
/// input.
pub fn decode_claims_set(b: &[u8]) -> (r: Option<CwtClaimsSet>)
    ensures
        r is Some <==> spec_decode_claims(b@) is Some,
        r matches Some(c) ==> spec_decode_claims(b@) == Some(c@),
{
    let head = parse_head(b, 0);
    let (m, n, p0) = match head {
        Some(t) => t,
        None => {
            return None;
        },
    };
    if m != MAJOR_MAP {
        return None;
    }
    // Audience (optional).
    let mut pos = p0;
    let mut aud: Option<Vec<u8>> = None;
    match parse_uint_item(b, pos) {
        Some((k, end)) => if k == CLAIM_AUD {
            match parse_str_item(b, end, MAJOR_TSTR) {
                Some((v, end2)) => {
                    aud = Some(v);
                    pos = end2;
                },
                None => {
                    return None;
                },
            }
        },
        None => {},
    }
    // Expiry (optional).
    let mut exp: Option<u64> = None;
    match parse_uint_item(b, pos) {
        Some((k, end)) => if k == CLAIM_EXP {
            match parse_uint_item(b, end) {
                Some((v, end2)) => {
                    exp = Some(v);
                    pos = end2;
                },
                None => {
                    return None;
                },
            }
        },
        None => {},
    }
    // Not-before (optional).
    let mut nbf: Option<u64> = None;
    match parse_uint_item(b, pos) {
        Some((k, end)) => if k == CLAIM_NBF {
            match parse_uint_item(b, end) {
                Some((v, end2)) => {
                    nbf = Some(v);
                    pos = end2;
                },
                None => {
                    return None;
                },
            }
        },
        None => {},
    }
    // Scope (required).
    let (k, p4) = match parse_uint_item(b, pos) {
        Some(t) => t,
        None => {
            return None;
        },
    };
    if k != CLAIM_SCOPE {
        return None;
    }
    let (scope, p5) = match parse_str_item(b, p4, MAJOR_BSTR) {
        Some(t) => t,
        None => {
            return None;
        },
    };
    let mut count: u64 = 1;
    if aud.is_some() {
        count = count + 1;
    }
    if exp.is_some() {
        count = count + 1;
    }
    if nbf.is_some() {
        count = count + 1;
    }
    if p5 == b.len() && n == count {
        Some(CwtClaimsSet { aud, exp, nbf, scope })
    } else {
        None
    }
}

/// True when the token's audience claim equals the given audience bytes.
pub fn audience_matches(claims: &CwtClaimsSet, audience: &[u8]) -> (r: bool)
    ensures
        r == (claims@.aud == Some(audience@)),
{
    match &claims.aud {
        Some(a) => bytes_eq(a.as_slice(), audience),
        None => false,
    }
}

} // verus!
