//! The hash-chain primitive: repeated application of a fixed cryptographic
//! hash function (SHA-256) to a byte string.

use vstd::prelude::*;

verus! {

/// Number of bytes in a digest of the fixed hash function (SHA-256).
pub const DIGEST_BYTES: usize = 32;

/// The SHA-256 digest of a byte sequence. The digest is a pure function of
/// the input bytes, so it can be given a name; nothing further is assumed
/// of its value.
pub uninterp spec fn sha256_of(input: Seq<u8>) -> Seq<u8>;

/// Relies on `sha2::Sha256::digest` (via the `sha2::Digest` trait):
/// a one-shot SHA-256 computation, deterministic in the input bytes alone,
/// whose result is always 32 bytes long.
#[verifier::external_body]
pub(crate) fn sha256(input: &[u8]) -> (r: Vec<u8>)
    ensures
        r@ == sha256_of(input@),
        r@.len() == DIGEST_BYTES,
{
    <sha2::Sha256 as sha2::Digest>::digest(input).to_vec()
}

/// The value `k` links along the hash chain that starts at `seed`:
/// the hash function applied `k` times to `seed`.
pub open spec fn chain_of(seed: Seq<u8>, k: nat) -> Seq<u8>
    decreases k,
{
    if k == 0 {
        seed
    } else {
        sha256_of(chain_of(seed, (k - 1) as nat))
    }
}

/// Walking a chain in two stages reaches the same value as walking it in
/// one: the links compose.
pub proof fn lemma_chain_of_sum(seed: Seq<u8>, a: nat, b: nat)
    ensures
        chain_of(chain_of(seed, a), b) == chain_of(seed, a + b),
    decreases b,
{
    if b > 0 {
        lemma_chain_of_sum(seed, a, (b - 1) as nat);
    }
}

/// Apply the hash function `k` times in sequence to `input`; `k == 0`
/// returns the input unchanged.
pub fn hash_chain(input: &Vec<u8>, k: u64) -> (r: Vec<u8>)
    ensures
        r@ == chain_of(input@, k as nat),
        input@.len() == DIGEST_BYTES ==> r@.len() == DIGEST_BYTES,
{
    let mut current: Vec<u8> = input.clone();
    proof {
        assert(current@ =~= input@);
    }
    let mut i: u64 = 0;
    while i < k
        invariant
            i <= k,
            current@ == chain_of(input@, i as nat),
            input@.len() == DIGEST_BYTES ==> current@.len() == DIGEST_BYTES,
        decreases k - i,
    {
        current = sha256(current.as_slice());
        i = i + 1;
    }
    current
}

} // verus!
