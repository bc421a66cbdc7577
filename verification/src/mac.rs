use vstd::prelude::*;

use sha2::Digest;

verus! {

/// The first six bytes of the SHA-256 digest of `data`, exactly as the sha2
/// crate computes it. The digest is a pure function of the hashed bytes, so
/// naming it is sound; nothing more is assumed of its value.
pub uninterp spec fn sha256_trunc48(data: Seq<u8>) -> Seq<u8>;

/// The 48-bit keyed MAC of the signing scheme: the first six bytes of the
/// SHA-256 digest of the secret key followed by the signable bytes. Stated
/// pointwise so that the result is six bytes long by construction.
pub open spec fn mac48(key: Seq<u8>, data: Seq<u8>) -> Seq<u8> {
    Seq::new(6, |i: int| sha256_trunc48(key + data)[i])
}

/// Relies on `sha2::Sha256` through the digest traits: hashing the secret key
/// followed by the first `n` bytes of `data` yields a digest that depends on
/// those bytes alone; the result is its first six bytes.
#[verifier::external_body]
pub(crate) fn sha256_mac48(key: &[u8; 32], data: &Vec<u8>, n: usize) -> (r: [u8; 6])
    requires
        n <= data.len(),
    ensures
        r@ == mac48(key@, data@.take(n as int)),
        forall|i: int| 0 <= i < 6 ==> r@[i] == sha256_trunc48(key@ + data@.take(n as int))[i],
{
    let mut hasher = sha2::Sha256::new();
    hasher.update(key);
    hasher.update(&data[..n]);
    let digest = hasher.finalize();
    let mut out = [0u8; 6];
    out.copy_from_slice(&digest[..6]);
    out
}

} // verus!
