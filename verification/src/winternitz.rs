//! The Winternitz one-time signature scheme: key generation, signing and
//! verification, built on the hash-chain primitive.

use vstd::prelude::*;

use crate::hash::DIGEST_BYTES;
use crate::hash::chain_of;
use crate::hash::hash_chain;
use crate::hash::lemma_chain_of_sum;
use crate::hash::sha256;
use crate::hash::sha256_of;

verus! {

/// Number of bits in a digest of the fixed hash function.
pub const DIGEST_BITS: u64 = 256;

/// Errors raised at construction of the scheme.
#[derive(Debug, Clone, Copy, PartialEq, Eq, Structural)]
pub enum WotsError {
    /// The Winternitz parameter is zero, or makes the chain-length
    /// arithmetic `2^w - 1` overflow its 64-bit width.
    InvalidParameter,
    /// The secure random source could not supply seed material.
    EntropyFailure,
}

/// A Winternitz parameter is valid when it is nonzero and `1 << w` fits
/// the 64-bit width used for chain-length arithmetic.
pub open spec fn valid_w(w: u8) -> bool {
    1 <= w <= 63
}

/// Number of hash chains for parameter `w`: `floor(DigestBits / w) + 1`.
/// The `+ 1` reserves one chain beyond what covers the digest bytes.
pub open spec fn chain_count(w: u8) -> nat
    recommends
        valid_w(w),
{
    ((DIGEST_BITS as nat) / (w as nat)) + 1
}

/// Number of links in each hash chain: `2^w - 1`.
pub open spec fn chain_len(w: u8) -> u64
    recommends
        valid_w(w),
{
    ((1u64 << w) - 1) as u64
}

/// The byte sequences held by a vector of byte vectors, in order.
pub open spec fn views_of(s: Seq<Vec<u8>>) -> Seq<Seq<u8>> {
    s.map_values(|c: Vec<u8>| c@)
}

/// The digit ("block value") for chain `i`, derived from the message
/// digest: the `i`-th digest byte clamped to the chain length, or `0` for
/// the reserved chain(s) past the digest's end.
pub open spec fn block_value(digest: Seq<u8>, i: int, w: u8) -> u64
    recommends
        valid_w(w),
{
    if 0 <= i < digest.len() {
        if (digest[i] as u64) < chain_len(w) {
            digest[i] as u64
        } else {
            chain_len(w)
        }
    } else {
        0
    }
}

/// The digit for every chain lies between the seed and the endpoint.
pub proof fn lemma_block_value_le_chain_len(digest: Seq<u8>, i: int, w: u8)
    ensures
        block_value(digest, i, w) <= chain_len(w),
{
}

/// A Winternitz one-time signature scheme instance: the parameter `w`
/// together with one key pair.
///
/// Each instance must be used to sign at most one message; a second
/// signature under the same key reveals further chain values and with them
/// private key material.
pub struct Winternitz {
    /// Winternitz parameter: larger values give shorter signatures at the
    /// cost of more hashing per operation.
    w: u8,
    /// Private key: one independently random 32-byte seed per hash chain.
    private_key: Vec<Vec<u8>>,
    /// Public key: the endpoint of each chain, the seed hashed
    /// `2^w - 1` times.
    public_key: Vec<Vec<u8>>,
}

impl Winternitz {
    /// The Winternitz parameter of this instance.
    pub closed spec fn spec_w(self) -> u8 {
        self.w
    }

    /// The private key as a sequence of byte sequences.
    pub closed spec fn spec_private_key(self) -> Seq<Seq<u8>> {
        views_of(self.private_key@)
    }

    /// The public key as a sequence of byte sequences.
    pub closed spec fn spec_public_key(self) -> Seq<Seq<u8>> {
        views_of(self.public_key@)
    }

    /// Well-formedness: the parameter is valid, both keys hold one
    /// digest-sized component per chain, and every public key component is
    /// the endpoint of the chain that starts at the matching private seed.
    pub open spec fn wf(self) -> bool {
        &&& valid_w(self.spec_w())
        &&& self.spec_private_key().len() == chain_count(self.spec_w())
        &&& self.spec_public_key().len() == chain_count(self.spec_w())
        &&& forall|i: int|
            0 <= i < chain_count(self.spec_w()) ==> (#[trigger] self.spec_private_key()[i]).len()
                == DIGEST_BYTES
        &&& forall|i: int|
            0 <= i < chain_count(self.spec_w()) ==> (#[trigger] self.spec_public_key()[i]).len()
                == DIGEST_BYTES
        &&& forall|i: int|
            0 <= i < chain_count(self.spec_w()) ==> #[trigger] self.spec_public_key()[i]
                == chain_of(self.spec_private_key()[i], chain_len(self.spec_w()) as nat)
    }

    #[verifier::type_invariant]
    spec fn type_inv(self) -> bool {
        self.wf()
    }

    /// The signature that this instance produces for a message with the
    /// given digest source: component `i` is the private seed of chain `i`
    /// walked `block_value` links along the chain.
    pub open spec fn spec_signature(self, msg: Seq<u8>) -> Seq<Seq<u8>> {
        Seq::new(
            chain_count(self.spec_w()),
            |i: int|
                chain_of(
                    self.spec_private_key()[i],
                    block_value(sha256_of(msg), i, self.spec_w()) as nat,
                ),
        )
    }

    /// Whether a candidate signature is accepted for a message: it has
    /// exactly one component per chain, and every component, walked the
    /// remaining distance along its chain, reaches the stored endpoint.
    pub open spec fn spec_verify(self, msg: Seq<u8>, sig: Seq<Seq<u8>>) -> bool {
        &&& sig.len() == chain_count(self.spec_w())
        &&& forall|i: int|
            0 <= i < sig.len() ==> chain_of(
                #[trigger] sig[i],
                (chain_len(self.spec_w()) - block_value(sha256_of(msg), i, self.spec_w())) as nat,
            ) == self.spec_public_key()[i]
    }

    /// Creates a new scheme instance for parameter `w`, generating the
    /// private key from the secure random source and deriving the public
    /// key by walking each chain to its end.
    ///
    /// Fails with `InvalidParameter` exactly on invalid `w`, and with
    /// `EntropyFailure` only when the random source fails.
    pub fn new(w: u8) -> (r: Result<Winternitz, WotsError>)
        ensures
            (r == Err::<Winternitz, WotsError>(WotsError::InvalidParameter)) <==> !valid_w(w),
            r matches Ok(s) ==> s.wf() && s.spec_w() == w,
            valid_w(w) ==> (r is Ok || r == Err::<Winternitz, WotsError>(WotsError::EntropyFailure)),
    {
        if w == 0 || w > 63 {
            return Err(WotsError::InvalidParameter);
        }
        let n: usize = (DIGEST_BITS / (w as u64)) as usize + 1;
        assert(1u64 << w >= 1) by (bit_vector)
            requires
                1 <= w <= 63,
        ;
        let l: u64 = (1u64 << w) - 1;

        let mut private_key: Vec<Vec<u8>> = Vec::new();
        let mut public_key: Vec<Vec<u8>> = Vec::new();
        let mut i: usize = 0;
        while i < n
            invariant
                i <= n,
                valid_w(w),
                n == chain_count(w),
                l == chain_len(w),
                private_key@.len() == i,
                public_key@.len() == i,
                forall|j: int|
                    0 <= j < i ==> (#[trigger] private_key@[j])@.len() == DIGEST_BYTES,
                forall|j: int|
                    0 <= j < i ==> (#[trigger] public_key@[j])@.len() == DIGEST_BYTES,
                forall|j: int|
                    0 <= j < i ==> (#[trigger] public_key@[j])@ == chain_of(
                        private_key@[j]@,
                        chain_len(w) as nat,
                    ),
            decreases n - i,
        {
            let seed = match random_seed() {
                Some(s) => s,
                None => {
                    return Err(WotsError::EntropyFailure);
                },
            };
            let endpoint = hash_chain(&seed, l);
            private_key.push(seed);
            public_key.push(endpoint);
            i = i + 1;
        }

        let scheme = Winternitz { w, private_key, public_key };
        Ok(scheme)
    }

    /// Signs a message: hashes it, derives one digit per chain from the
    /// digest, and reveals each chain walked exactly that many links from
    /// its private seed.
    ///
    /// The result is a pure function of the key pair and the message: two
    /// calls with the same key and message yield the same signature.
    pub fn sign(&self, message: &[u8]) -> (signature: Vec<Vec<u8>>)
        ensures
            views_of(signature@) == self.spec_signature(message@),
            signature@.len() == chain_count(self.spec_w()),
            forall|i: int|
                0 <= i < signature@.len() ==> (#[trigger] signature@[i])@.len() == DIGEST_BYTES,
            self.wf(),
    {
        proof {
            use_type_invariant(&*self);
        }
        let digest = sha256(message);
        let w: u8 = self.w;
        assert(1u64 << w >= 1) by (bit_vector)
            requires
                1 <= w <= 63,
        ;
        let l: u64 = (1u64 << w) - 1;
        let n: usize = self.private_key.len();

        let mut signature: Vec<Vec<u8>> = Vec::new();
        let mut i: usize = 0;
        while i < n
            invariant
                i <= n,
                self.wf(),
                n == chain_count(self.spec_w()),
                l == chain_len(self.spec_w()),
                n == self.private_key@.len(),
                digest@ == sha256_of(message@),
                digest@.len() == DIGEST_BYTES,
                signature@.len() == i,
                forall|j: int|
                    0 <= j < i ==> (#[trigger] signature@[j])@ == self.spec_signature(message@)[j],
                forall|j: int|
                    0 <= j < i ==> (#[trigger] signature@[j])@.len() == DIGEST_BYTES,
            decreases n - i,
        {
            let block: u64 = if i < digest.len() {
                let d: u64 = digest[i] as u64;
                if d < l {
                    d
                } else {
                    l
                }
            } else {
                0
            };
            proof {
                assert(self.spec_private_key()[i as int] == self.private_key@[i as int]@);
            }
            let component = hash_chain(&self.private_key[i], block);
            signature.push(component);
            i = i + 1;
        }
        proof {
            assert(views_of(signature@) =~= self.spec_signature(message@));
        }
        signature
    }

    /// Verifies a candidate signature against a message: recomputes each
    /// digit, walks every signature component the remaining distance along
    /// its chain, and accepts exactly when every endpoint matches the
    /// stored public key. A signature whose component count differs from
    /// the chain count is rejected outright.
    pub fn verify(&self, message: &[u8], signature: &[Vec<u8>]) -> (valid: bool)
        ensures
            valid == self.spec_verify(message@, views_of(signature@)),
            self.wf(),
    {
        proof {
            use_type_invariant(&*self);
        }
        if signature.len() != self.public_key.len() {
            return false;
        }
        let digest = sha256(message);
        let w: u8 = self.w;
        assert(1u64 << w >= 1) by (bit_vector)
            requires
                1 <= w <= 63,
        ;
        let l: u64 = (1u64 << w) - 1;
        let n: usize = signature.len();

        let mut i: usize = 0;
        while i < n
            invariant
                i <= n,
                self.wf(),
                n == chain_count(self.spec_w()),
                l == chain_len(self.spec_w()),
                n == signature@.len(),
                digest@ == sha256_of(message@),
                digest@.len() == DIGEST_BYTES,
                forall|j: int|
                    0 <= j < i ==> chain_of(
                        (#[trigger] signature@[j])@,
                        (chain_len(self.spec_w()) - block_value(
                            sha256_of(message@),
                            j,
                            self.spec_w(),
                        )) as nat,
                    ) == self.spec_public_key()[j],
            decreases n - i,
        {
            let block: u64 = if i < digest.len() {
                let d: u64 = digest[i] as u64;
                if d < l {
                    d
                } else {
                    l
                }
            } else {
                0
            };
            let remaining: u64 = l - block;
            let candidate = hash_chain(&signature[i], remaining);
            if !bytes_equal(&candidate, &self.public_key[i]) {
                proof {
                    assert(views_of(signature@)[i as int] == signature@[i as int]@);
                    assert(!self.spec_verify(message@, views_of(signature@)));
                }
                return false;
            }
            i = i + 1;
        }
        proof {
            assert forall|j: int| 0 <= j < views_of(signature@).len() implies chain_of(
                #[trigger] views_of(signature@)[j],
                (chain_len(self.spec_w()) - block_value(sha256_of(message@), j, self.spec_w()))
                    as nat,
            ) == self.spec_public_key()[j] by {
                assert(views_of(signature@)[j] == signature@[j]@);
            }
        }
        true
    }

    /// Returns the stored public key by reference; it can be shared
    /// freely and is what others use to check signatures.
    pub fn get_public_key(&self) -> (pk: &Vec<Vec<u8>>)
        ensures
            views_of(pk@) == self.spec_public_key(),
            self.wf(),
    {
        proof {
            use_type_invariant(&*self);
        }
        &self.public_key
    }

    /// Returns the stored private key by reference, for inspection by the
    /// key's owner; it must never be disclosed.
    pub fn get_private_key(&self) -> (sk: &Vec<Vec<u8>>)
        ensures
            views_of(sk@) == self.spec_private_key(),
            self.wf(),
    {
        proof {
            use_type_invariant(&*self);
        }
        &self.private_key
    }
}

/// Relies on `rand::rngs::OsRng` and `rand::RngCore::try_fill_bytes`: on
/// `Ok` the whole digest-sized buffer has been filled from the operating
/// system's secure random source; on `Err` the source was unavailable and
/// no seed is handed out. `OsRng::try_fill_bytes` reports failure as an
/// error instead of panicking, so entropy exhaustion surfaces to the
/// caller. Nothing is assumed about the bytes themselves.
#[verifier::external_body]
fn random_seed() -> (r: Option<Vec<u8>>)
    ensures
        r matches Some(seed) ==> seed@.len() == DIGEST_BYTES,
{
    let mut seed = vec![0u8; 32];
    match rand::RngCore::try_fill_bytes(&mut rand::rngs::OsRng, &mut seed) {
        Ok(()) => Some(seed),
        Err(_) => None,
    }
}

/// Byte-for-byte equality of two byte vectors.
fn bytes_equal(a: &Vec<u8>, b: &Vec<u8>) -> (r: bool)
    ensures
        r == (a@ == b@),
{
    if a.len() != b.len() {
        return false;
    }
    let mut i: usize = 0;
    while i < a.len()
        invariant
            i <= a@.len(),
            a@.len() == b@.len(),
            forall|j: int| 0 <= j < i ==> a@[j] == b@[j],
        decreases a@.len() - i,
    {
        if a[i] != b[i] {
            return false;
        }
        i = i + 1;
    }
    proof {
        assert(a@ =~= b@);
    }
    true
}

/// Round trip: for every well-formed instance and every message, the
/// signature that `sign` produces is accepted by `verify` against the
/// matching public key.
pub proof fn lemma_round_trip(s: Winternitz, msg: Seq<u8>)
    requires
        s.wf(),
    ensures
        s.spec_verify(msg, s.spec_signature(msg)),
{
    let w = s.spec_w();
    let sig = s.spec_signature(msg);
    assert forall|i: int| 0 <= i < sig.len() implies chain_of(
        #[trigger] sig[i],
        (chain_len(w) - block_value(sha256_of(msg), i, w)) as nat,
    ) == s.spec_public_key()[i] by {
        let b = block_value(sha256_of(msg), i, w);
        lemma_block_value_le_chain_len(sha256_of(msg), i, w);
        lemma_chain_of_sum(s.spec_private_key()[i], b as nat, (chain_len(w) - b) as nat);
    }
}

/// Chain consistency: each public key component is exactly the matching
/// private seed with the hash function applied `2^w - 1` times.
pub proof fn lemma_chain_consistency(s: Winternitz, i: int)
    requires
        s.wf(),
        0 <= i < chain_count(s.spec_w()),
    ensures
        s.spec_public_key()[i] == chain_of(s.spec_private_key()[i], chain_len(s.spec_w()) as nat),
{
}

/// Key-size law: private and public key both hold exactly
/// `floor(DigestBits / w) + 1` components.
pub proof fn lemma_key_size(s: Winternitz)
    requires
        s.wf(),
    ensures
        s.spec_private_key().len() == (DIGEST_BITS as nat) / (s.spec_w() as nat) + 1,
        s.spec_public_key().len() == (DIGEST_BITS as nat) / (s.spec_w() as nat) + 1,
{
}

/// The scheme reads a message only through its digest: two messages with
/// equal digests are interchangeable, both for signing and for
/// verification. Rejection of a message distinct from the signed one
/// therefore rests on their digests differing, a property of the hash
/// function that is not modelled here. Note that for `w < 8` the clamp in
/// `block_value` maps many distinct byte values to the chain length, so
/// two distinct digests can drive every chain to the same position; such
/// messages are likewise interchangeable for verification, without any
/// hash collision.
pub proof fn lemma_message_binding_via_digest(s: Winternitz, m1: Seq<u8>, m2: Seq<u8>, sig: Seq<Seq<u8>>)
    requires
        sha256_of(m1) == sha256_of(m2),
    ensures
        s.spec_signature(m1) == s.spec_signature(m2),
        s.spec_verify(m1, sig) == s.spec_verify(m2, sig),
{
    assert(s.spec_signature(m1) =~= s.spec_signature(m2));
}

/// Length-mismatch rejection: a signature whose component count differs
/// from the chain count never verifies, whatever its components hold.
pub proof fn lemma_length_mismatch(s: Winternitz, msg: Seq<u8>, sig: Seq<Seq<u8>>)
    requires
        sig.len() != chain_count(s.spec_w()),
    ensures
        !s.spec_verify(msg, sig),
{
}

} // verus!
