//! Schnorr-style non-interactive proof of knowledge of a discrete log over
//! G1: given an instance `(g, g_x)` the prover shows knowledge of `x` with
//! `g_x = g * x`, made non-interactive by a Fiat-Shamir challenge over the
//! serialized instance and commitment.
use vstd::prelude::*;

use crate::bn::{
    fr_mul, fr_order, fr_sub, fr_wf, g1_add, g1_add_spec, g1_mul, g1_mul_spec, g1_wf,
    g1_zero_bytes, FrBytes, G1Bytes,
};
use crate::bytes::{all_zero, be_val, bytes_eq, clone_bytes, push_bytes};
use crate::hashes::{hash_to_fr, hash_to_fr_spec, rand_fr};

verus! {

/// A discrete-log proof: the Fiat-Shamir challenge and the response.
#[derive(Debug)]
pub struct ZkpDl {
    pub c: FrBytes,
    pub s: FrBytes,
}

/// A discrete-log instance: a base `g` and an image `g_x`.
pub struct InstanceDl {
    pub g: G1Bytes,
    pub g_x: G1Bytes,
}

/// The Fiat-Shamir transcript: instance bytes followed by the commitment.
pub open spec fn dl_transcript(g: Seq<u8>, g_x: Seq<u8>, t: Seq<u8>) -> Seq<u8> {
    g + g_x + t
}

/// The instance test made by the verifier: both points are finite.
pub open spec fn dl_instance_ok(g: Seq<u8>, g_x: Seq<u8>) -> bool {
    g != g1_zero_bytes() && g_x != g1_zero_bytes()
}

/// Exactly when the verifier accepts `(c, s)` for the instance `(g, g_x)`:
/// the instance is finite and `c` equals the challenge recomputed over the
/// commitment `g * s + g_x * c`.
pub open spec fn zkp_dl_accepts(g: Seq<u8>, g_x: Seq<u8>, c: Seq<u8>, s: Seq<u8>) -> bool {
    let t = g1_add_spec(g1_mul_spec(g, be_val(s)), g1_mul_spec(g_x, be_val(c)));
    dl_instance_ok(g, g_x) && c == hash_to_fr_spec(dl_transcript(g, g_x, t))
}

/// The prover's equations, for the nonce bytes `rn`: the challenge hashes
/// the commitment `g * rn` and the response is `rn - c * x` modulo the Fr
/// order.
pub open spec fn zkp_dl_built(
    g: Seq<u8>,
    g_x: Seq<u8>,
    witness: Seq<u8>,
    rn: Seq<u8>,
    proof_c: Seq<u8>,
    proof_s: Seq<u8>,
) -> bool {
    proof_c == hash_to_fr_spec(dl_transcript(g, g_x, g1_mul_spec(g, be_val(rn)))) && be_val(
        proof_s,
    ) == (be_val(rn) + fr_order() - (be_val(proof_c) * be_val(witness)) % fr_order()) % (fr_order()
        as int)
}

/// The serialized challenge input for an instance and a commitment.
pub(crate) fn dl_challenge_input(g: &G1Bytes, g_x: &G1Bytes, t: &G1Bytes) -> (r: Vec<u8>)
    ensures
        r@ == dl_transcript(g.b@, g_x.b@, t.b@),
{
    let mut out = clone_bytes(&g.b);
    push_bytes(&mut out, &g_x.b);
    push_bytes(&mut out, &t.b);
    out
}

/// Whether both instance points are finite; the verifier rejects otherwise.
fn validate_instance(instance: &InstanceDl) -> (r: bool)
    requires
        g1_wf(instance.g.b@),
        g1_wf(instance.g_x.b@),
    ensures
        r == dl_instance_ok(instance.g.b@, instance.g_x.b@),
{
    let gz = all_zero(&instance.g.b);
    let gxz = all_zero(&instance.g_x.b);
    !(gz || gxz)
}

/// Proves knowledge of `witness` for the instance, with a fresh nonce.
pub fn generate_zkp(instance: &InstanceDl, witness: &FrBytes) -> (r: ZkpDl)
    requires
        g1_wf(instance.g.b@),
        g1_wf(instance.g_x.b@),
        fr_wf(witness.b@),
    ensures
        fr_wf(r.c.b@),
        fr_wf(r.s.b@),
        exists|rn: Seq<u8>|
            fr_wf(rn) && #[trigger] zkp_dl_built(
                instance.g.b@,
                instance.g_x.b@,
                witness.b@,
                rn,
                r.c.b@,
                r.s.b@,
            ),
{
    let nonce = rand_fr();
    let t = g1_mul(&instance.g, &nonce);
    let inp = dl_challenge_input(&instance.g, &instance.g_x, &t);
    let c = hash_to_fr(inp.as_slice());
    let cw = fr_mul(&c, witness);
    let s = fr_sub(&nonce, &cw);
    let r = ZkpDl { c, s };
    proof {
        assert(zkp_dl_built(
            instance.g.b@,
            instance.g_x.b@,
            witness.b@,
            nonce.b@,
            r.c.b@,
            r.s.b@,
        ));
    }
    r
}

/// Checks a discrete-log proof against its instance.
pub fn validate_zkp(instance: &InstanceDl, proof: &ZkpDl) -> (r: bool)
    requires
        g1_wf(instance.g.b@),
        g1_wf(instance.g_x.b@),
        fr_wf(proof.c.b@),
        fr_wf(proof.s.b@),
    ensures
        r == zkp_dl_accepts(instance.g.b@, instance.g_x.b@, proof.c.b@, proof.s.b@),
{
    if !validate_instance(instance) {
        return false;
    }
    let gs = g1_mul(&instance.g, &proof.s);
    let gxc = g1_mul(&instance.g_x, &proof.c);
    let t_prime = g1_add(&gs, &gxc);
    let inp = dl_challenge_input(&instance.g, &instance.g_x, &t_prime);
    let c_prime = hash_to_fr(inp.as_slice());
    bytes_eq(&proof.c.b, &c_prime.b)
}

} // verus!
