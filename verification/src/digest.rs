use vstd::prelude::*;

verus! {

/// The SHA-256 digest of a byte sequence. The digest itself is computed by
/// the `sha2` crate; this name stands for its result, which is a function of
/// the input bytes alone.
pub uninterp spec fn sha256_of(data: Seq<u8>) -> Seq<u8>;

/// Relies on `sha2::Sha256` (through `digest::Digest::digest`): the one-shot
/// SHA-256 of `data`, a pure function of `data` with a 32-byte output.
#[verifier::external_body]
pub fn sha256(data: &[u8]) -> (r: Vec<u8>)
    ensures
        r@ == sha256_of(data@),
        r@.len() == 32,
{
    let out = <sha2::Sha256 as sha2::Digest>::digest(data);
    out.to_vec()
}

} // verus!
