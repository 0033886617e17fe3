//! Cryptographic core of a distributed randomness beacon: a Goldberg-style
//! VRF over secp256k1, a BLS VRF and a GLOW threshold DVRF over a BN-254
//! pairing curve, a FlexiRand blinding layer, and an Instarand client.
use vstd::prelude::*;

pub mod bls_vrf;
pub mod bn;
pub mod bytes;
pub mod dvrf;
pub mod flexirand;
pub mod glow_dvrf;
pub mod goldberg_vrf;
pub mod hashes;
pub mod instarand;
pub mod interpolation;
pub mod secp;
pub mod zkp_dl;
pub mod zkp_glow;

use rand::Rng;

verus! {

/// Threshold used by the default committee configuration.
pub const DEFAULT_THRESHOLD: usize = 5;

/// Committee size used by the default committee configuration.
pub const DEFAULT_NUM_NODES: usize = 9;

/// Fresh 32 random bytes for a beacon request.
/// Relies on rand::thread_rng and Rng::gen.
#[verifier::external_body]
pub fn random_input() -> [u8; 32] {
    rand::thread_rng().gen::<[u8; 32]>()
}

} // verus!
