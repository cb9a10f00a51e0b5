//! Key derivation: a group point to a 256-bit symmetric key.
//!
//! The point's canonical compressed encoding is fed to a domain-separated
//! key-derivation hash under a fixed, protocol-specific context string.
//! The derived key is a function of the point alone, so the sender and the
//! receiver agree on it whenever they hold the same point.

use vstd::prelude::*;

use crate::group::Point;

verus! {

/// The 32 bytes that `blake3::derive_key` produces from the given context
/// string and key material.  The output is a function of the two inputs
/// alone.
pub uninterp spec fn blake3_derive(context: Seq<char>, material: Seq<u8>) -> Seq<u8>;

/// The fixed domain-separation context string of this protocol's key
/// derivation.  Interoperating implementations must match it bit for bit.
pub open spec fn kdf_context() -> Seq<char> {
    "Oblivious Transfer 11-16-2023"@
}

/// The symmetric key derived from a group point's canonical encoding.
pub open spec fn kdf_spec(point_bytes: Seq<u8>) -> Seq<u8> {
    blake3_derive(kdf_context(), point_bytes)
}

/// Relies on `blake3::derive_key`: its 32-byte output is a deterministic
/// function of the context string and the key material alone, named
/// `blake3_derive`.
#[verifier::external_body]
fn blake3_derive_key(context: &str, material: &[u8; 32]) -> (r: [u8; 32])
    ensures
        r@ == blake3_derive(context@, material@),
{
    blake3::derive_key(context, material)
}

/// Derives the 256-bit symmetric key of a group point: the
/// domain-separated hash of the point's canonical compressed encoding.
pub fn derive_key(point: &Point) -> (r: [u8; 32])
    ensures
        r@ == kdf_spec(point@),
{
    let bytes = point.to_bytes();
    blake3_derive_key("Oblivious Transfer 11-16-2023", &bytes)
}

/// KDF determinism: the derived key is a function of the point's encoding
/// alone, so equal points always yield equal keys.
pub proof fn lemma_kdf_deterministic(p: Seq<u8>, q: Seq<u8>)
    requires
        p == q,
    ensures
        kdf_spec(p) == kdf_spec(q),
{
}

} // verus!
