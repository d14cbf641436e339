//! The cryptographic digest used to derive comment identifiers.

use vstd::prelude::*;

verus! {

/// The SHA-256 digest of a byte string. The digest is a pure function of the
/// bytes alone; its value is left uninterpreted, so nothing downstream can
/// depend on what the digest of a given string is, only on equal inputs
/// having equal digests.
pub uninterp spec fn sha256_of(bytes: Seq<u8>) -> Seq<u8>;

/// Relies on `anchor_lang::solana_program::hash::hash`: a SHA-256 digest,
/// 32 bytes wide, depending on the input bytes alone.
#[verifier::external_body]
pub(crate) fn sha256_hash(content: &Vec<u8>) -> (r: Vec<u8>)
    ensures
        r@ == sha256_of(content@),
        r@.len() == 32,
{
    anchor_lang::solana_program::hash::hash(content.as_slice())
        .to_bytes()
        .to_vec()
}

} // verus!
