use vstd::prelude::*;
use vstd::string::StringExecFns;

use crate::digest::{sha256, sha256_of};
use crate::text::{hex_string, spec_hex};

verus! {

/// Compares two byte strings for equality of their contents.
pub fn bytes_eq(a: &Vec<u8>, b: &Vec<u8>) -> (r: bool)
    ensures
        r == (a@ == b@),
{
    if a.len() != b.len() {
        return false;
    }
    let mut i: usize = 0;
    while i < a.len()
        invariant
            i <= a@.len(),
            a@.len() == b@.len(),
            forall|j: int| 0 <= j < i ==> a@[j] == b@[j],
        decreases a@.len() - i,
    {
        if a[i] != b[i] {
            return false;
        }
        i = i + 1;
    }
    proof {
        assert(a@ =~= b@);
    }
    true
}

/// A normalized asset identifier: the 32-byte IBC-prefixed hash form of a
/// denomination. All cost and balance bookkeeping keys on this form.
pub struct AssetId {
    bytes: Vec<u8>,
}

impl View for AssetId {
    type V = Seq<u8>;

    closed spec fn view(&self) -> Seq<u8> {
        self.bytes@
    }
}

/// The canonical textual form of an IBC-prefixed asset identifier:
/// `ibc/` followed by the 64 lower-case hex digits of the hash.
pub open spec fn spec_ibc_display(id: Seq<u8>) -> Seq<char> {
    "ibc/"@ + spec_hex(id)
}

impl AssetId {
    /// Well-formed: the identifier is a 32-byte digest.
    pub open spec fn wf(&self) -> bool {
        self@.len() == 32
    }

    pub fn from_bytes(bytes: Vec<u8>) -> (r: AssetId)
        requires
            bytes@.len() == 32,
        ensures
            r.wf(),
            r@ == bytes@,
    {
        AssetId { bytes }
    }

    pub fn eq_id(&self, other: &AssetId) -> (r: bool)
        ensures
            r == (self@ == other@),
    {
        bytes_eq(&self.bytes, &other.bytes)
    }

    pub fn as_bytes(&self) -> (r: &Vec<u8>)
        ensures
            r@ == self@,
    {
        &self.bytes
    }

    /// Renders the identifier in its IBC-prefixed textual form.
    pub fn display_string(&self) -> (r: String)
        ensures
            r@ == spec_ibc_display(self@),
    {
        let hex = hex_string(&self.bytes);
        let r = String::from_str("ibc/").concat(hex.as_str());
        proof {
            assert(r@ =~= spec_ibc_display(self@));
        }
        r
    }
}

impl Clone for AssetId {
    fn clone(&self) -> (r: Self)
        ensures
            r@ == self@,
            r.wf() == self.wf(),
    {
        AssetId { bytes: self.bytes.clone() }
    }
}

/// An asset denomination as a transaction names it: either already in the
/// normalized 32-byte IBC-prefixed form, or a trace denomination given by
/// the bytes of its textual form.
pub enum Denom {
    IbcPrefixed(AssetId),
    TracePrefixed(Vec<u8>),
}

/// The normalized 32-byte form of a denomination: an already-prefixed
/// denomination is its own normal form; a trace denomination normalizes to
/// the SHA-256 digest of its textual form.
pub open spec fn spec_to_ibc_prefixed(d: Denom) -> Seq<u8> {
    match d {
        Denom::IbcPrefixed(id) => id@,
        Denom::TracePrefixed(t) => sha256_of(t@),
    }
}

impl Denom {
    pub open spec fn wf(&self) -> bool {
        match self {
            Denom::IbcPrefixed(id) => id.wf(),
            Denom::TracePrefixed(_) => true,
        }
    }

    /// Byte length of the denomination's canonical textual form.
    pub open spec fn spec_display_len(&self) -> nat {
        match self {
            Denom::IbcPrefixed(_) => 68,
            Denom::TracePrefixed(t) => t@.len(),
        }
    }

    /// Normalizes the denomination to its IBC-prefixed form.
    pub fn to_ibc_prefixed(&self) -> (r: AssetId)
        requires
            self.wf(),
        ensures
            r.wf(),
            r@ == spec_to_ibc_prefixed(*self),
    {
        match self {
            Denom::IbcPrefixed(id) => id.clone(),
            Denom::TracePrefixed(t) => AssetId { bytes: sha256(t.as_slice()) },
        }
    }
}

impl Clone for Denom {
    fn clone(&self) -> (r: Self)
        ensures
            spec_to_ibc_prefixed(r) == spec_to_ibc_prefixed(*self),
            r.wf() == self.wf(),
            r.spec_display_len() == self.spec_display_len(),
    {
        match self {
            Denom::IbcPrefixed(id) => Denom::IbcPrefixed(id.clone()),
            Denom::TracePrefixed(t) => Denom::TracePrefixed(t.clone()),
        }
    }
}

} // verus!
