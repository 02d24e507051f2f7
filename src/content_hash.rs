//! Content addressing: a fixed-width digest over the bytes of a payload.

use vstd::prelude::*;

verus! {

/// The 32-byte BLAKE3 digest of a byte sequence.
pub uninterp spec fn blake3_digest(bytes: Seq<u8>) -> Seq<u8>;

/// Relies on `blake3::hash`: the BLAKE3 digest of the input, which depends on
/// the input bytes alone.
#[verifier::external_body]
fn blake3_hash(bytes: &[u8]) -> (r: [u8; 32])
    ensures
        r@ == blake3_digest(bytes@),
{
    *blake3::hash(bytes).as_bytes()
}

/// The digest identifying a piece of immutable content.
#[derive(Clone, Copy, Debug, PartialEq, Eq, Hash)]
pub struct ContentHash {
    bytes: [u8; 32],
}

impl View for ContentHash {
    type V = Seq<u8>;

    closed spec fn view(&self) -> Seq<u8> {
        self.bytes@
    }
}

impl ContentHash {
    /// Hashes `bytes`.
    pub fn new(bytes: &[u8]) -> (r: ContentHash)
        ensures
            r@ == blake3_digest(bytes@),
    {
        ContentHash { bytes: blake3_hash(bytes) }
    }

    /// A hash read back from its 32 bytes.
    pub fn from_bytes(bytes: [u8; 32]) -> (r: ContentHash)
        ensures
            r@ == bytes@,
    {
        ContentHash { bytes }
    }

    /// The 32 bytes of the hash.
    pub fn as_bytes(&self) -> (r: [u8; 32])
        ensures
            r@ == self@,
    {
        self.bytes
    }
}

/// Hashing is deterministic: the same bytes always give the same content hash.
pub proof fn lemma_hash_deterministic(a: Seq<u8>, b: Seq<u8>)
    requires
        a == b,
    ensures
        blake3_digest(a) == blake3_digest(b),
{
}

} // verus!
