//! Schnorr-style non-interactive proof of equal discrete logs over two G1
//! bases: given an instance `(g, g_x, h, h_x)` the prover shows knowledge of
//! `x` with `g_x = g * x` and `h_x = h * x`.  The Fiat-Shamir transcript
//! serializes the whole instance, second base included, and then both
//! commitments.
use vstd::prelude::*;

use crate::bn::{
    fr_mul, fr_order, fr_sub, fr_wf, g1_add, g1_add_spec, g1_mul, g1_mul_spec, g1_wf,
    g1_zero_bytes, FrBytes, G1Bytes,
};
use crate::bytes::{all_zero, be_val, bytes_eq, clone_bytes, push_bytes};
use crate::hashes::{hash_to_fr, hash_to_fr_spec, rand_fr};

verus! {

/// An equal-discrete-log proof: the Fiat-Shamir challenge and the response.
#[derive(Debug)]
pub struct ZkpGlow {
    pub c: FrBytes,
    pub s: FrBytes,
}

/// An equal-discrete-log instance: bases `g`, `h` and images `g_x`, `h_x`.
pub struct InstanceGlow {
    pub g: G1Bytes,
    pub g_x: G1Bytes,
    pub h: G1Bytes,
    pub h_x: G1Bytes,
}

/// The Fiat-Shamir transcript: instance bytes followed by both commitments.
pub open spec fn glow_transcript(
    g: Seq<u8>,
    g_x: Seq<u8>,
    h: Seq<u8>,
    h_x: Seq<u8>,
    t_g: Seq<u8>,
    t_h: Seq<u8>,
) -> Seq<u8> {
    g + g_x + h + h_x + t_g + t_h
}

/// The instance test made by the verifier: it deliberately checks only the
/// `g` side, so a caller must reject a malformed `h` or `h_x` itself, for
/// example by recomputing `h` from the message.
pub open spec fn glow_instance_ok(g: Seq<u8>, g_x: Seq<u8>) -> bool {
    g != g1_zero_bytes() && g_x != g1_zero_bytes()
}

/// Exactly when the verifier accepts `(c, s)`: the `g` side is finite and
/// `c` equals the challenge recomputed over the commitments
/// `g * s + g_x * c` and `h * s + h_x * c`.
pub open spec fn zkp_glow_accepts(
    g: Seq<u8>,
    g_x: Seq<u8>,
    h: Seq<u8>,
    h_x: Seq<u8>,
    c: Seq<u8>,
    s: Seq<u8>,
) -> bool {
    let t_g = g1_add_spec(g1_mul_spec(g, be_val(s)), g1_mul_spec(g_x, be_val(c)));
    let t_h = g1_add_spec(g1_mul_spec(h, be_val(s)), g1_mul_spec(h_x, be_val(c)));
    glow_instance_ok(g, g_x) && c == hash_to_fr_spec(glow_transcript(g, g_x, h, h_x, t_g, t_h))
}

/// The prover's equations, for the nonce bytes `rn`: the challenge hashes
/// the commitments `g * rn` and `h * rn`, and the response is `rn - c * x`
/// modulo the Fr order.
pub open spec fn zkp_glow_built(
    g: Seq<u8>,
    g_x: Seq<u8>,
    h: Seq<u8>,
    h_x: Seq<u8>,
    witness: Seq<u8>,
    rn: Seq<u8>,
    proof_c: Seq<u8>,
    proof_s: Seq<u8>,
) -> bool {
    proof_c == hash_to_fr_spec(
        glow_transcript(
            g,
            g_x,
            h,
            h_x,
            g1_mul_spec(g, be_val(rn)),
            g1_mul_spec(h, be_val(rn)),
        ),
    ) && be_val(proof_s) == (be_val(rn) + fr_order() - (be_val(proof_c) * be_val(witness))
        % fr_order()) % (fr_order() as int)
}

/// The serialized challenge input for an instance and two commitments.
pub(crate) fn glow_challenge_input(
    g: &G1Bytes,
    g_x: &G1Bytes,
    h: &G1Bytes,
    h_x: &G1Bytes,
    t_g: &G1Bytes,
    t_h: &G1Bytes,
) -> (r: Vec<u8>)
    ensures
        r@ == glow_transcript(g.b@, g_x.b@, h.b@, h_x.b@, t_g.b@, t_h.b@),
{
    let mut out = clone_bytes(&g.b);
    push_bytes(&mut out, &g_x.b);
    push_bytes(&mut out, &h.b);
    push_bytes(&mut out, &h_x.b);
    push_bytes(&mut out, &t_g.b);
    push_bytes(&mut out, &t_h.b);
    out
}

/// Whether the `g` side of the instance is finite.
fn validate_instance(instance: &InstanceGlow) -> (r: bool)
    requires
        g1_wf(instance.g.b@),
        g1_wf(instance.g_x.b@),
    ensures
        r == glow_instance_ok(instance.g.b@, instance.g_x.b@),
{
    let gz = all_zero(&instance.g.b);
    let gxz = all_zero(&instance.g_x.b);
    !(gz || gxz)
}

/// Proves knowledge of a common `witness` for both bases, with a fresh
/// nonce.
pub fn generate_zkp_glow(instance: &InstanceGlow, witness: &FrBytes) -> (r: ZkpGlow)
    requires
        g1_wf(instance.g.b@),
        g1_wf(instance.g_x.b@),
        g1_wf(instance.h.b@),
        g1_wf(instance.h_x.b@),
        fr_wf(witness.b@),
    ensures
        fr_wf(r.c.b@),
        fr_wf(r.s.b@),
        exists|rn: Seq<u8>|
            fr_wf(rn) && #[trigger] zkp_glow_built(
                instance.g.b@,
                instance.g_x.b@,
                instance.h.b@,
                instance.h_x.b@,
                witness.b@,
                rn,
                r.c.b@,
                r.s.b@,
            ),
{
    let nonce = rand_fr();
    let t_g = g1_mul(&instance.g, &nonce);
    let t_h = g1_mul(&instance.h, &nonce);
    let inp = glow_challenge_input(
        &instance.g,
        &instance.g_x,
        &instance.h,
        &instance.h_x,
        &t_g,
        &t_h,
    );
    let c = hash_to_fr(inp.as_slice());
    let cw = fr_mul(&c, witness);
    let s = fr_sub(&nonce, &cw);
    let r = ZkpGlow { c, s };
    proof {
        assert(zkp_glow_built(
            instance.g.b@,
            instance.g_x.b@,
            instance.h.b@,
            instance.h_x.b@,
            witness.b@,
            nonce.b@,
            r.c.b@,
            r.s.b@,
        ));
    }
    r
}

/// Checks an equal-discrete-log proof against its instance.
pub fn validate_zkp_glow(instance: &InstanceGlow, proof: &ZkpGlow) -> (r: bool)
    requires
        g1_wf(instance.g.b@),
        g1_wf(instance.g_x.b@),
        g1_wf(instance.h.b@),
        g1_wf(instance.h_x.b@),
        fr_wf(proof.c.b@),
        fr_wf(proof.s.b@),
    ensures
        r == zkp_glow_accepts(
            instance.g.b@,
            instance.g_x.b@,
            instance.h.b@,
            instance.h_x.b@,
            proof.c.b@,
            proof.s.b@,
        ),
{
    if !validate_instance(instance) {
        return false;
    }
    let gs = g1_mul(&instance.g, &proof.s);
    let gxc = g1_mul(&instance.g_x, &proof.c);
    let t_g_prime = g1_add(&gs, &gxc);
    let hs = g1_mul(&instance.h, &proof.s);
    let hxc = g1_mul(&instance.h_x, &proof.c);
    let t_h_prime = g1_add(&hs, &hxc);
    let inp = glow_challenge_input(
        &instance.g,
        &instance.g_x,
        &instance.h,
        &instance.h_x,
        &t_g_prime,
        &t_h_prime,
    );
    let c_prime = hash_to_fr(inp.as_slice());
    bytes_eq(&proof.c.b, &c_prime.b)
}

impl Clone for ZkpGlow {
    fn clone(&self) -> (r: Self)
        ensures
            r.c.b@ == self.c.b@,
            r.s.b@ == self.s.b@,
    {
        ZkpGlow { c: self.c.clone(), s: self.s.clone() }
    }
}

} // verus!
