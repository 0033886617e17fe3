//! The hashless BLS VRF over BN-254: the output is the message's G1 point
//! multiplied by the secret key, and it verifies by the pairing equation
//! `e(out, g2) == e(H1(m), pk)`.
use vstd::prelude::*;

use crate::bn::{
    fr_wf, g1_mul, g1_mul_spec, g1_wf, g2_generator, g2_gen_bytes, g2_mul_gen, g2_mul_spec,
    g2_wf, pairing_check, pairing_of, FrBytes, G1Bytes, G2Bytes,
};
use crate::bytes::be_val;
use crate::hashes::{hash_to_g1, hash_to_g1_spec, rand_fr};

verus! {

/// The hashless BLS VRF: its output is a raw G1 point.
pub struct BlsVrfHashless;

impl BlsVrfHashless {
    /// A fresh key pair: a uniform secret scalar and its G2 public key.
    pub fn keygen() -> (r: (FrBytes, G2Bytes))
        ensures
            fr_wf(r.0.b@),
            g2_wf(r.1.b@),
            r.1.b@ == g2_mul_spec(g2_gen_bytes(), be_val(r.0.b@)),
    {
        let sk = rand_fr();
        let pk = g2_mul_gen(&sk);
        (sk, pk)
    }

    /// The VRF output on the message: `H1(m) * sk`.
    pub fn eval(inp: &[u8], sk: &FrBytes, _pk: &G2Bytes) -> (r: G1Bytes)
        requires
            fr_wf(sk.b@),
        ensures
            g1_wf(r.b@),
            r.b@ == g1_mul_spec(hash_to_g1_spec(inp@), be_val(sk.b@)),
    {
        let h = hash_to_g1(inp);
        g1_mul(&h, sk)
    }

    /// Verifies an output: `e(out, g2) == e(H1(m), pk)`.
    pub fn ver(inp: &[u8], pk: &G2Bytes, out: &G1Bytes) -> (r: bool)
        requires
            g2_wf(pk.b@),
            g1_wf(out.b@),
        ensures
            r == (pairing_of(out.b@, g2_gen_bytes()) == pairing_of(hash_to_g1_spec(inp@), pk.b@)),
    {
        let g2 = g2_generator();
        let h = hash_to_g1(inp);
        pairing_check(out, &g2, &h, pk)
    }
}

} // verus!
