//! Deterministic hash helpers on the BN-254 side: the Keccak-256 digest used
//! for every Fiat-Shamir transcript, and hash-to-scalar / hash-to-curve built
//! from a pseudo-random generator seeded with that digest.
use vstd::prelude::*;

use crate::bn::{fr_wf, g1_to_bytes, g1_wf, g1_zero_bytes, FrBytes, G1Bytes};
use rand::rngs::OsRng;
use rand::SeedableRng;
use sha3::Digest;
use substrate_bn::Group;

verus! {

/// The 32-byte Keccak-256 digest of the input bytes.
pub uninterp spec fn keccak256_spec(inp: Seq<u8>) -> Seq<u8>;

/// The canonical bytes of the Fr scalar drawn from the input bytes.
pub uninterp spec fn hash_to_fr_spec(inp: Seq<u8>) -> Seq<u8>;

/// The coordinate bytes of the G1 point drawn from the input bytes.
pub uninterp spec fn hash_to_g1_spec(inp: Seq<u8>) -> Seq<u8>;

/// Keccak-256.
/// Relies on sha3::Keccak256: a 32-byte digest of the input alone.
#[verifier::external_body]
pub(crate) fn keccak256(inp: &[u8]) -> (r: Vec<u8>)
    ensures
        r@ == keccak256_spec(inp@),
        r@.len() == 32,
{
    sha3::Keccak256::digest(inp).to_vec()
}

/// A fresh uniform Fr scalar.
/// Relies on substrate_bn::Fr::random over rand::rngs::OsRng.
#[verifier::external_body]
pub fn rand_fr() -> (r: FrBytes)
    ensures
        fr_wf(r.b@),
{
    FrBytes { b: crate::bn::fr_ser(substrate_bn::Fr::random(&mut OsRng)) }
}

/// The Fr scalar derived deterministically from the input bytes.
/// Relies on sha3::Keccak256, rand::rngs::StdRng seeded with the digest, and
/// substrate_bn::Fr::random: the result depends on the input bytes alone.
#[verifier::external_body]
pub fn hash_to_fr(inp: &[u8]) -> (r: FrBytes)
    ensures
        r.b@ == hash_to_fr_spec(inp@),
        fr_wf(r.b@),
{
    let seed: [u8; 32] = sha3::Keccak256::digest(inp).into();
    let mut rng = rand::rngs::StdRng::from_seed(seed);
    FrBytes { b: crate::bn::fr_ser(substrate_bn::Fr::random(&mut rng)) }
}

/// The G1 point derived deterministically from the input bytes.
/// Relies on sha3::Keccak256, rand::rngs::StdRng seeded with the digest, and
/// substrate_bn::G1::random: the result depends on the input bytes alone.
#[verifier::external_body]
pub fn hash_to_g1(inp: &[u8]) -> (r: G1Bytes)
    ensures
        r.b@ == hash_to_g1_spec(inp@),
        g1_wf(r.b@),
{
    let seed: [u8; 32] = sha3::Keccak256::digest(inp).into();
    let mut rng = rand::rngs::StdRng::from_seed(seed);
    G1Bytes { b: crate::bn::g1_ser(substrate_bn::G1::random(&mut rng)) }
}

/// The 32-byte digest of a finite G1 point's coordinate bytes.
pub fn hash_g1_to_bytes(inp: &G1Bytes) -> (r: Vec<u8>)
    requires
        g1_wf(inp.b@),
        inp.b@ != g1_zero_bytes(),
    ensures
        r@ == keccak256_spec(inp.b@),
        r@.len() == 32,
{
    let bytes = g1_to_bytes(inp);
    keccak256(bytes.as_slice())
}

/// Deterministic hashing: every hash helper of the library is a function of
/// its input bytes alone, so equal inputs give equal outputs.
pub proof fn lemma_hash_deterministic(b1: Seq<u8>, b2: Seq<u8>)
    requires
        b1 == b2,
    ensures
        keccak256_spec(b1) == keccak256_spec(b2),
        hash_to_fr_spec(b1) == hash_to_fr_spec(b2),
        hash_to_g1_spec(b1) == hash_to_g1_spec(b2),
        crate::secp::hash_to_scalar_spec(b1) == crate::secp::hash_to_scalar_spec(b2),
        crate::secp::hash_to_curve_spec(b1) == crate::secp::hash_to_curve_spec(b2),
{
}

} // verus!
