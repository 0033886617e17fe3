//! The Goldberg-style VRF over secp256k1.  The output point is
//! `gamma = H(m) * sk`; the pair `(c, s)` is a DDH-style sigma proof that
//! `gamma` and the public key share the discrete log `sk` under the bases
//! `H(m)` and the generator; `beta`, the VRF output string, is the 33-byte
//! compressed encoding of `gamma`.
use vstd::prelude::*;

use crate::bytes::{all_zero, be_val, bytes_eq, clone_bytes, push_bytes};
use crate::secp::{
    hash_to_curve, hash_to_curve_spec, hash_to_scalar, hash_to_scalar_spec, rand_scalar, sc_mul,
    sc_sub, sc_wf, secp_add, secp_add_spec, secp_gen_bytes, secp_generator, secp_mul,
    secp_mul_gen, secp_mul_spec, secp_wf, secp_zero_bytes, SecpPointBytes, SecpScalarBytes,
};

verus! {

/// The Goldberg VRF over secp256k1.
pub struct GoldbergVrf;

/// A Goldberg VRF output: the output point, the sigma-proof pair and the
/// output string.
#[derive(Debug)]
pub struct OutputGoldbergVrf {
    pub gamma: SecpPointBytes,
    pub c: SecpScalarBytes,
    pub s: SecpScalarBytes,
    pub beta: Vec<u8>,
}

/// Well-formed output bytes.
pub open spec fn goldberg_out_wf(out: OutputGoldbergVrf) -> bool {
    secp_wf(out.gamma.b@) && sc_wf(out.c.b@) && sc_wf(out.s.b@) && out.beta@.len() == 33
}

/// The Fiat-Shamir transcript: the generator, the curve point of the
/// message, both images, and both commitments.
pub open spec fn goldberg_transcript(
    h: Seq<u8>,
    g_x: Seq<u8>,
    h_x: Seq<u8>,
    g_k: Seq<u8>,
    h_k: Seq<u8>,
) -> Seq<u8> {
    secp_gen_bytes() + h + g_x + h_x + g_k + h_k
}

/// The prover's equations, for the nonce bytes `kn`: the output point is
/// `H(m) * sk`, the challenge hashes the commitments `g * kn` and
/// `H(m) * kn`, the response is `kn - c * sk` modulo the group order, and
/// the output string is the encoding of the output point.
pub open spec fn goldberg_eval_rel(
    inp: Seq<u8>,
    sk: Seq<u8>,
    kn: Seq<u8>,
    out: OutputGoldbergVrf,
) -> bool {
    let h = hash_to_curve_spec(inp);
    let g_x = secp_mul_spec(secp_gen_bytes(), be_val(sk));
    let gamma = secp_mul_spec(h, be_val(sk));
    let g_k = secp_mul_spec(secp_gen_bytes(), be_val(kn));
    let h_k = secp_mul_spec(h, be_val(kn));
    &&& out.gamma.b@ == gamma
    &&& out.c.b@ == hash_to_scalar_spec(goldberg_transcript(h, g_x, gamma, g_k, h_k))
    &&& be_val(out.s.b@) == (be_val(kn) + crate::secp::secp_order() - (be_val(out.c.b@) * be_val(
        sk,
    )) % crate::secp::secp_order()) % (crate::secp::secp_order() as int)
    &&& out.beta@ == gamma
}

/// Exactly when the verifier accepts an output for the message under the
/// public key: the output point is finite, the output string matches it,
/// and the challenge recomputed over `pk * c + g * s` and
/// `gamma * c + H(m) * s` equals `c`.
pub open spec fn goldberg_accepts(inp: Seq<u8>, pk: Seq<u8>, out: OutputGoldbergVrf) -> bool {
    let h = hash_to_curve_spec(inp);
    let u = secp_add_spec(
        secp_mul_spec(pk, be_val(out.c.b@)),
        secp_mul_spec(secp_gen_bytes(), be_val(out.s.b@)),
    );
    let v = secp_add_spec(
        secp_mul_spec(out.gamma.b@, be_val(out.c.b@)),
        secp_mul_spec(h, be_val(out.s.b@)),
    );
    &&& out.gamma.b@ != secp_zero_bytes()
    &&& out.beta@ == out.gamma.b@
    &&& out.c.b@ == hash_to_scalar_spec(goldberg_transcript(h, pk, out.gamma.b@, u, v))
}

/// The serialized challenge input of the Goldberg sigma proof.
fn challenge_goldberg_secp256k1(
    h: &SecpPointBytes,
    g_x: &SecpPointBytes,
    h_x: &SecpPointBytes,
    g_k: &SecpPointBytes,
    h_k: &SecpPointBytes,
) -> (r: SecpScalarBytes)
    ensures
        sc_wf(r.b@),
        r.b@ == hash_to_scalar_spec(goldberg_transcript(h.b@, g_x.b@, h_x.b@, g_k.b@, h_k.b@)),
{
    let g = secp_generator();
    let mut bytes = clone_bytes(&g.b);
    push_bytes(&mut bytes, &h.b);
    push_bytes(&mut bytes, &g_x.b);
    push_bytes(&mut bytes, &h_x.b);
    push_bytes(&mut bytes, &g_k.b);
    push_bytes(&mut bytes, &h_k.b);
    hash_to_scalar(bytes.as_slice())
}

/// Whether a point encoding is the identity.
fn is_infinity(p: &SecpPointBytes) -> (r: bool)
    requires
        p.b@.len() == 33,
    ensures
        r == (p.b@ == secp_zero_bytes()),
{
    all_zero(&p.b)
}

impl GoldbergVrf {
    /// A fresh key pair: a uniform secret scalar and its public key.
    pub fn keygen() -> (r: (SecpScalarBytes, SecpPointBytes))
        ensures
            sc_wf(r.0.b@),
            secp_wf(r.1.b@),
            r.1.b@ == secp_mul_spec(secp_gen_bytes(), be_val(r.0.b@)),
    {
        let sk = rand_scalar();
        let pk = secp_mul_gen(&sk);
        (sk, pk)
    }

    /// Evaluates the VRF on the message with a fresh proof nonce.
    pub fn eval(inp: &[u8], sk: &SecpScalarBytes, _pk: &SecpPointBytes) -> (r: OutputGoldbergVrf)
        requires
            sc_wf(sk.b@),
        ensures
            goldberg_out_wf(r),
            exists|kn: Seq<u8>| sc_wf(kn) && #[trigger] goldberg_eval_rel(inp@, sk.b@, kn, r),
    {
        let h = hash_to_curve(inp);
        let gamma = secp_mul(&h, sk);
        let k = rand_scalar();
        let g_x = secp_mul_gen(sk);
        let g_k = secp_mul_gen(&k);
        let h_k = secp_mul(&h, &k);
        let c = challenge_goldberg_secp256k1(&h, &g_x, &gamma, &g_k, &h_k);
        let csk = sc_mul(&c, sk);
        let s = sc_sub(&k, &csk);
        let beta = clone_bytes(&gamma.b);
        let r = OutputGoldbergVrf { gamma, c, s, beta };
        proof {
            assert(goldberg_eval_rel(inp@, sk.b@, k.b@, r));
        }
        r
    }

    /// Verifies an output for the message under the public key.
    pub fn ver(inp: &[u8], pk: &SecpPointBytes, out: &OutputGoldbergVrf) -> (r: bool)
        requires
            secp_wf(pk.b@),
            goldberg_out_wf(*out),
        ensures
            r == goldberg_accepts(inp@, pk.b@, *out),
    {
        if is_infinity(&out.gamma) {
            return false;
        }
        // secp256k1 has cofactor 1, so a decodable point is a group member.
        if !bytes_eq(&out.beta, &out.gamma.b) {
            return false;
        }
        let pkc = secp_mul(pk, &out.c);
        let gs = secp_mul_gen(&out.s);
        let u = secp_add(&pkc, &gs);
        let h = hash_to_curve(inp);
        let gammac = secp_mul(&out.gamma, &out.c);
        let hs = secp_mul(&h, &out.s);
        let v = secp_add(&gammac, &hs);
        let c_prime = challenge_goldberg_secp256k1(&h, pk, &out.gamma, &u, &v);
        bytes_eq(&out.c.b, &c_prime.b)
    }
}

} // verus!
