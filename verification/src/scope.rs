//! Access scopes: which operations on which resources a principal may
//! perform.
//!
//! Scopes arrive inside tokens as AIF bytes: a CBOR array of
//! `[path, permission-mask]` pairs, deterministically encoded.  A request is
//! within an AIF scope when some pair names its path and its mask covers the
//! requested permission bits.

use vstd::prelude::*;

use crate::cbor::{bytes_eq, parse_head, spec_parse_head, MAJOR_ARRAY, MAJOR_TSTR};
use crate::ace::{parse_str_item, parse_uint_item, spec_parse_str_item, spec_parse_uint_item};

verus! {

/// One AIF pair: a resource path and the permission mask granted on it.
pub struct AifEntry {
    /// The resource path (UTF-8 bytes of a text string).
    pub path: Vec<u8>,
    /// The granted permission bits.
    pub mask: u64,
}

impl View for AifEntry {
    type V = (Seq<u8>, u64);

    open spec fn view(&self) -> (Seq<u8>, u64) {
        (self.path@, self.mask)
    }
}

/// A scope expressed as a list of AIF pairs.
pub struct AifValue {
    /// The pairs, in the order they appeared in the encoded scope.
    pub entries: Vec<AifEntry>,
}

impl View for AifValue {
    type V = Seq<(Seq<u8>, u64)>;

    open spec fn view(&self) -> Seq<(Seq<u8>, u64)> {
        self.entries@.map_values(|e: AifEntry| e@)
    }
}

/// The scope that does not restrict access at all.
pub struct AllowAll;

/// The scope representation the configurable policy grants claims under:
/// either a parsed AIF value or unrestricted access.
pub enum UnionScope {
    /// Access within the given AIF pairs.
    Aif(AifValue),
    /// Unrestricted access.
    AllowAll,
}

/// Mathematical model of a [`UnionScope`].
pub ghost enum UnionScopeView {
    /// Model of [`UnionScope::Aif`].
    Aif(Seq<(Seq<u8>, u64)>),
    /// Model of [`UnionScope::AllowAll`].
    AllowAll,
}

impl View for UnionScope {
    type V = UnionScopeView;

    open spec fn view(&self) -> UnionScopeView {
        match self {
            UnionScope::Aif(v) => UnionScopeView::Aif(v@),
            UnionScope::AllowAll => UnionScopeView::AllowAll,
        }
    }
}

/// True when some pair of `entries` names `path` and covers all bits of
/// `mask`.
pub open spec fn spec_aif_allows(entries: Seq<(Seq<u8>, u64)>, path: Seq<u8>, mask: u64) -> bool {
    exists|i: int|
        0 <= i < entries.len() && (#[trigger] entries[i]).0 == path && entries[i].1 & mask == mask
}

/// True when the scope admits the request for `mask` on `path`.
pub open spec fn spec_scope_allows(scope: UnionScopeView, path: Seq<u8>, mask: u64) -> bool {
    match scope {
        UnionScopeView::Aif(entries) => spec_aif_allows(entries, path, mask),
        UnionScopeView::AllowAll => true,
    }
}

/// Reads `n` AIF pairs starting at `b[pos]`; the position afterwards points
/// just past the last pair.
pub open spec fn spec_parse_aif_items(b: Seq<u8>, pos: int, n: u64) -> Option<
    (Seq<(Seq<u8>, u64)>, int),
>
    decreases n,
{
    if n == 0 {
        Some((Seq::empty(), pos))
    } else {
        match spec_parse_head(b, pos) {
            Some((m, pair_len, p1)) => if m == MAJOR_ARRAY && pair_len == 2 {
                match spec_parse_str_item(b, p1, MAJOR_TSTR) {
                    Some((path, p2)) => match spec_parse_uint_item(b, p2) {
                        Some((mask, p3)) => match spec_parse_aif_items(b, p3, (n - 1) as u64) {
                            Some((rest, p4)) => Some((seq![(path, mask)] + rest, p4)),
                            None => None,
                        },
                        None => None,
                    },
                    None => None,
                }
            } else {
                None
            },
            None => None,
        }
    }
}

/// The AIF pairs encoded by `b`, if `b` is a deterministically encoded AIF
/// array; `None` otherwise.
pub open spec fn spec_parse_aif(b: Seq<u8>) -> Option<Seq<(Seq<u8>, u64)>> {
    match spec_parse_head(b, 0) {
        Some((m, n, p0)) => if m == MAJOR_ARRAY {
            match spec_parse_aif_items(b, p0, n) {
                Some((entries, p1)) => if p1 == b.len() {
                    Some(entries)
                } else {
                    None
                },
                None => None,
            }
        } else {
            None
        },
        None => None,
    }
}

/// Executable counterpart of [`spec_parse_aif_items`].
fn parse_aif_items(b: &[u8], pos: usize, n: u64) -> (r: Option<(Vec<AifEntry>, usize)>)
    ensures
        r is Some <==> spec_parse_aif_items(b@, pos as int, n) is Some,
        r matches Some((entries, end)) ==> spec_parse_aif_items(b@, pos as int, n) == Some(
            (entries@.map_values(|e: AifEntry| e@), end as int),
        ),
    decreases n,
{
    if n == 0 {
        let empty: Vec<AifEntry> = Vec::new();
        proof {
            assert(empty@.map_values(|e: AifEntry| e@) =~= Seq::<(Seq<u8>, u64)>::empty());
        }
        Some((empty, pos))
    } else {
        let (m, pair_len, p1) = match parse_head(b, pos) {
            Some(t) => t,
            None => {
                return None;
            },
        };
        if !(m == MAJOR_ARRAY && pair_len == 2) {
            return None;
        }
        let (path, p2) = match parse_str_item(b, p1, MAJOR_TSTR) {
            Some(t) => t,
            None => {
                return None;
            },
        };
        let (mask, p3) = match parse_uint_item(b, p2) {
            Some(t) => t,
            None => {
                return None;
            },
        };
        let (mut rest, p4) = match parse_aif_items(b, p3, n - 1) {
            Some(t) => t,
            None => {
                return None;
            },
        };
        let ghost rest_entries = rest@;
        let entry = AifEntry { path, mask };
        let ghost entry_view = entry@;
        rest.insert(0, entry);
        proof {
            assert(rest@.map_values(|e: AifEntry| e@) =~= seq![entry_view]
                + rest_entries.map_values(|e: AifEntry| e@));
        }
        Some((rest, p4))
    }
}

impl AifValue {
    /// Parses AIF bytes into a scope.
    ///
    /// Returns the parsed pairs exactly when [`spec_parse_aif`] accepts the
    /// input.
    pub fn parse(b: &[u8]) -> (r: Option<AifValue>)
        ensures
            r is Some <==> spec_parse_aif(b@) is Some,
            r matches Some(v) ==> spec_parse_aif(b@) == Some(v@),
    {
        let (m, n, p0) = match parse_head(b, 0) {
            Some(t) => t,
            None => {
                return None;
            },
        };
        if m != MAJOR_ARRAY {
            return None;
        }
        let (entries, p1) = match parse_aif_items(b, p0, n) {
            Some(t) => t,
            None => {
                return None;
            },
        };
        if p1 == b.len() {
            Some(AifValue { entries })
        } else {
            None
        }
    }

    /// An owned copy of this scope.
    pub fn duplicate(&self) -> (r: AifValue)
        ensures
            r@ == self@,
    {
        let mut entries: Vec<AifEntry> = Vec::new();
        for i in 0..self.entries.len()
            invariant
                entries@.len() == i,
                forall|j: int| 0 <= j < i ==> (#[trigger] entries@[j])@ == self.entries@[j]@,
        {
            let e = &self.entries[i];
            entries.push(
                AifEntry { path: crate::cbor::clone_bytes(e.path.as_slice()), mask: e.mask },
            );
        }
        let result = AifValue { entries };
        proof {
            assert(result@ =~= self@);
        }
        result
    }

    /// True when some pair names `path` and covers all bits of `mask`.
    pub fn allows(&self, path: &[u8], mask: u64) -> (r: bool)
        ensures
            r == spec_aif_allows(self@, path@, mask),
    {
        for i in 0..self.entries.len()
            invariant
                forall|j: int|
                    0 <= j < i ==> !((#[trigger] self@[j]).0 == path@ && self@[j].1 & mask
                        == mask),
        {
            let e = &self.entries[i];
            if bytes_eq(e.path.as_slice(), path) && e.mask & mask == mask {
                proof {
                    assert(self@[i as int].0 == path@ && self@[i as int].1 & mask == mask);
                }
                return true;
            }
        }
        false
    }
}

impl UnionScope {
    /// The scope holding exactly the given AIF pairs.
    pub fn from_aif(value: AifValue) -> (r: UnionScope)
        ensures
            r@ == UnionScopeView::Aif(value@),
    {
        UnionScope::Aif(value)
    }

    /// The scope that does not restrict access.
    pub fn unrestricted() -> (r: UnionScope)
        ensures
            r@ == UnionScopeView::AllowAll,
    {
        UnionScope::AllowAll
    }

    /// An owned copy of this scope.
    pub fn duplicate(&self) -> (r: UnionScope)
        ensures
            r@ == self@,
    {
        match self {
            UnionScope::Aif(v) => UnionScope::Aif(v.duplicate()),
            UnionScope::AllowAll => UnionScope::AllowAll,
        }
    }

    /// True when the scope admits the request for `mask` on `path`.
    pub fn allows(&self, path: &[u8], mask: u64) -> (r: bool)
        ensures
            r == spec_scope_allows(self@, path@, mask),
    {
        match self {
            UnionScope::Aif(v) => v.allows(path, mask),
            UnionScope::AllowAll => true,
        }
    }
}

impl AllowAll {
    /// Every request is admitted; the scope never restricts access.
    pub fn allows(&self, path: &[u8], mask: u64) -> (r: bool)
        ensures
            r == true,
    {
        true
    }
}

} // verus!
