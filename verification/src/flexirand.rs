//! The FlexiRand blinding layer around the GLOW DVRF.  A client hides its
//! input by multiplying the hashed point with a secret blinding factor and
//! proves the blinding well-formed; the committee signs the blinded point
//! directly, never re-hashing it; the client divides the blinding factor
//! out of the aggregate and obtains a plain DVRF output that verifies
//! against the committee public key and the original message.
use vstd::prelude::*;

use crate::bn::{
    fr_inv, fr_order, fr_wf, g1_gen_bytes, g1_mul, g1_mul_spec, g1_wf, g1_zero_bytes,
    g2_gen_bytes, g2_wf, pairing_of, FrBytes, G1Bytes, G2Bytes,
};
use crate::bytes::{all_zero, be_val, lemma_be_val_zero};
use crate::dvrf::{DvrfConfig, DvrfError, DvrfPubParam, TrustedKeygenOutput};
use crate::glow_dvrf::{
    agg_ids, agg_psigs, keygen_ok, part_eval_rel, peval_wf, GlowDvrf, GlowDvrfHashless,
    PartialEval,
};
use crate::hashes::{hash_g1_to_bytes, hash_to_g1, hash_to_g1_spec, keccak256_spec, rand_fr};
use crate::interpolation::{lagrange_coeffs_ok, lagrange_dens_ok, msm_upto};
use crate::zkp_dl::{generate_zkp, validate_zkp, zkp_dl_accepts, zkp_dl_built, InstanceDl, ZkpDl};
use crate::zkp_glow::zkp_glow_accepts;

verus! {

/// The FlexiRand construction over the hashless GLOW DVRF.
pub struct FlexiRandGlow;

impl FlexiRandGlow {
    /// Trusted dealer keygen of the underlying DVRF.
    pub fn keygen(config: &DvrfConfig) -> (r: TrustedKeygenOutput)
        requires
            1 <= config.t <= config.n <= 256,
        ensures
            keygen_ok(*config, r),
    {
        GlowDvrfHashless::keygen(config)
    }

    /// A fresh blinding factor: a uniform scalar, with the zero draw (which
    /// could not be inverted) replaced by one.
    pub fn blinding_factor() -> (r: FrBytes)
        ensures
            fr_wf(r.b@),
            be_val(r.b@) != 0,
    {
        let bf = rand_fr();
        if all_zero(&bf.b) {
            crate::bn::fr_from_u64(1)
        } else {
            proof {
                lemma_be_val_zero(bf.b@);
            }
            bf
        }
    }

    /// Blinds the message under the given factor: the blinded point
    /// `H1(m) * bf` with a discrete-log proof for the instance
    /// `(H1(m), H1(m) * bf)` and witness `bf`.
    pub fn blind_input_with_bf(inp: &[u8], bf: &FrBytes) -> (r: (G1Bytes, ZkpDl))
        requires
            fr_wf(bf.b@),
        ensures
            g1_wf(r.0.b@),
            r.0.b@ == g1_mul_spec(hash_to_g1_spec(inp@), be_val(bf.b@)),
            fr_wf(r.1.c.b@),
            fr_wf(r.1.s.b@),
            exists|rn: Seq<u8>|
                fr_wf(rn) && #[trigger] zkp_dl_built(
                    hash_to_g1_spec(inp@),
                    g1_mul_spec(hash_to_g1_spec(inp@), be_val(bf.b@)),
                    bf.b@,
                    rn,
                    r.1.c.b@,
                    r.1.s.b@,
                ),
    {
        let h = hash_to_g1(inp);
        let hx = g1_mul(&h, bf);
        let instance = InstanceDl { g: h, g_x: hx.clone() };
        let zkp = generate_zkp(&instance, bf);
        proof {
            let rn = choose|rn: Seq<u8>|
                fr_wf(rn) && #[trigger] zkp_dl_built(
                    instance.g.b@,
                    instance.g_x.b@,
                    bf.b@,
                    rn,
                    zkp.c.b@,
                    zkp.s.b@,
                );
            assert(fr_wf(rn) && zkp_dl_built(
                hash_to_g1_spec(inp@),
                g1_mul_spec(hash_to_g1_spec(inp@), be_val(bf.b@)),
                bf.b@,
                rn,
                zkp.c.b@,
                zkp.s.b@,
            ));
        }
        (hx, zkp)
    }

    /// Blinds the message under a fresh factor and returns both.
    pub fn blind_input(inp: &[u8]) -> (r: (FrBytes, (G1Bytes, ZkpDl)))
        ensures
            fr_wf(r.0.b@),
            be_val(r.0.b@) != 0,
            g1_wf(r.1.0.b@),
            r.1.0.b@ == g1_mul_spec(hash_to_g1_spec(inp@), be_val(r.0.b@)),
            fr_wf(r.1.1.c.b@),
            fr_wf(r.1.1.s.b@),
            exists|rn: Seq<u8>|
                fr_wf(rn) && #[trigger] zkp_dl_built(
                    hash_to_g1_spec(inp@),
                    g1_mul_spec(hash_to_g1_spec(inp@), be_val(r.0.b@)),
                    r.0.b@,
                    rn,
                    r.1.1.c.b@,
                    r.1.1.s.b@,
                ),
    {
        let bf = Self::blinding_factor();
        let blinded_inp = Self::blind_input_with_bf(inp, &bf);
        (bf, blinded_inp)
    }

    /// Checks the blinding proof of a blinded input against the message.
    pub fn inp_ver(inp: &[u8], blinded_input: &(G1Bytes, ZkpDl)) -> (r: bool)
        requires
            g1_wf(blinded_input.0.b@),
            fr_wf(blinded_input.1.c.b@),
            fr_wf(blinded_input.1.s.b@),
        ensures
            r == zkp_dl_accepts(
                hash_to_g1_spec(inp@),
                blinded_input.0.b@,
                blinded_input.1.c.b@,
                blinded_input.1.s.b@,
            ),
    {
        let h = hash_to_g1(inp);
        let instance = InstanceDl { g: h, g_x: blinded_input.0.clone() };
        validate_zkp(&instance, &blinded_input.1)
    }

    /// A party's partial evaluation on the blinded point itself.  The point
    /// is deliberately not re-hashed: only then does unblinding cancel the
    /// factor against the committee's aggregate.
    pub fn part_eval(blinded_input: &(G1Bytes, ZkpDl), sk: &FrBytes, vk: &G1Bytes) -> (r:
        PartialEval)
        requires
            g1_wf(blinded_input.0.b@),
            fr_wf(sk.b@),
            g1_wf(vk.b@),
        ensures
            peval_wf(r),
            part_eval_rel(blinded_input.0.b@, sk.b@, vk.b@, r),
    {
        GlowDvrfHashless::part_eval_on_point(&blinded_input.0, sk, vk)
    }

    /// Checks a partial evaluation against the blinded point.
    pub fn part_ver(blinded_input: &(G1Bytes, ZkpDl), vk: &G1Bytes, peval: &PartialEval) -> (r:
        bool)
        requires
            g1_wf(blinded_input.0.b@),
            g1_wf(vk.b@),
            peval_wf(*peval),
        ensures
            r == zkp_glow_accepts(
                g1_gen_bytes(),
                vk.b@,
                blinded_input.0.b@,
                peval.psig.b@,
                peval.zkp_glow.c.b@,
                peval.zkp_glow.s.b@,
            ),
    {
        GlowDvrfHashless::part_ver_on_point(&blinded_input.0, vk, peval)
    }

    /// Aggregates the first `threshold` partials over the blinded point.
    pub fn aggregate(threshold: usize, pevals: Vec<(usize, PartialEval)>) -> (r: Result<
        G1Bytes,
        DvrfError,
    >)
        requires
            forall|k: int| 0 <= k < pevals.len() ==> peval_wf(#[trigger] pevals[k].1),
        ensures
            (pevals@.len() < threshold) == (r == Err::<G1Bytes, DvrfError>(
                DvrfError::InsufficientPartials,
            )),
            (pevals@.len() >= threshold && !lagrange_dens_ok(
                agg_ids(pevals@, threshold as int),
            )) == (r == Err::<G1Bytes, DvrfError>(DvrfError::DuplicateIdentifier)),
            match r {
                Ok(out) => {
                    &&& pevals@.len() >= threshold
                    &&& lagrange_dens_ok(agg_ids(pevals@, threshold as int))
                    &&& g1_wf(out.b@)
                    &&& exists|lams: Seq<nat>|
                        #[trigger] lagrange_coeffs_ok(agg_ids(pevals@, threshold as int), lams)
                            && out.b@ == msm_upto(
                            lams,
                            agg_psigs(pevals@, threshold as int),
                            threshold as int,
                        )
                },
                Err(e) => e == DvrfError::InsufficientPartials || e
                    == DvrfError::DuplicateIdentifier,
            },
    {
        GlowDvrfHashless::aggregate(threshold, pevals)
    }

    /// Aggregates with the threshold of a configuration.
    pub fn aggregate_with_config(config: &DvrfConfig, pevals: Vec<(usize, PartialEval)>) -> (r:
        Result<G1Bytes, DvrfError>)
        requires
            forall|k: int| 0 <= k < pevals.len() ==> peval_wf(#[trigger] pevals[k].1),
        ensures
            (pevals@.len() < config.t) == (r == Err::<G1Bytes, DvrfError>(
                DvrfError::InsufficientPartials,
            )),
            (pevals@.len() >= config.t && !lagrange_dens_ok(
                agg_ids(pevals@, config.t as int),
            )) == (r == Err::<G1Bytes, DvrfError>(DvrfError::DuplicateIdentifier)),
            match r {
                Ok(out) => {
                    &&& pevals@.len() >= config.t
                    &&& lagrange_dens_ok(agg_ids(pevals@, config.t as int))
                    &&& g1_wf(out.b@)
                    &&& exists|lams: Seq<nat>|
                        #[trigger] lagrange_coeffs_ok(agg_ids(pevals@, config.t as int), lams)
                            && out.b@ == msm_upto(
                            lams,
                            agg_psigs(pevals@, config.t as int),
                            config.t as int,
                        )
                },
                Err(e) => e == DvrfError::InsufficientPartials || e
                    == DvrfError::DuplicateIdentifier,
            },
    {
        GlowDvrfHashless::aggregate(config.t, pevals)
    }

    /// Aggregates with the threshold of the public parameters.
    pub fn aggregate_with_pp(pp: &DvrfPubParam, pevals: Vec<(usize, PartialEval)>) -> (r: Result<
        G1Bytes,
        DvrfError,
    >)
        requires
            forall|k: int| 0 <= k < pevals.len() ==> peval_wf(#[trigger] pevals[k].1),
        ensures
            (pevals@.len() < pp.config.t) == (r == Err::<G1Bytes, DvrfError>(
                DvrfError::InsufficientPartials,
            )),
            (pevals@.len() >= pp.config.t && !lagrange_dens_ok(
                agg_ids(pevals@, pp.config.t as int),
            )) == (r == Err::<G1Bytes, DvrfError>(DvrfError::DuplicateIdentifier)),
            match r {
                Ok(out) => {
                    &&& pevals@.len() >= pp.config.t
                    &&& lagrange_dens_ok(agg_ids(pevals@, pp.config.t as int))
                    &&& g1_wf(out.b@)
                    &&& exists|lams: Seq<nat>|
                        #[trigger] lagrange_coeffs_ok(agg_ids(pevals@, pp.config.t as int), lams)
                            && out.b@ == msm_upto(
                            lams,
                            agg_psigs(pevals@, pp.config.t as int),
                            pp.config.t as int,
                        )
                },
                Err(e) => e == DvrfError::InsufficientPartials || e
                    == DvrfError::DuplicateIdentifier,
            },
    {
        GlowDvrfHashless::aggregate(pp.config.t, pevals)
    }

    /// Pre-verifies the blinded aggregate against the blinded point:
    /// `e(blinded_out, g2) == e(blinded_point, pk)`.
    pub fn prever_with_pk(
        blinded_inp: &(G1Bytes, ZkpDl),
        pk: &G2Bytes,
        blinded_out: &G1Bytes,
    ) -> (r: bool)
        requires
            g1_wf(blinded_inp.0.b@),
            g2_wf(pk.b@),
            g1_wf(blinded_out.b@),
        ensures
            r == (pairing_of(blinded_out.b@, g2_gen_bytes()) == pairing_of(
                blinded_inp.0.b@,
                pk.b@,
            )),
    {
        GlowDvrfHashless::out_ver_on_point(&blinded_inp.0, pk, blinded_out)
    }

    /// Pre-verifies against the public key of the parameters.
    pub fn prever_with_pp(
        blinded_inp: &(G1Bytes, ZkpDl),
        pp: &DvrfPubParam,
        blinded_out: &G1Bytes,
    ) -> (r: bool)
        requires
            g1_wf(blinded_inp.0.b@),
            g2_wf(pp.pk.b@),
            g1_wf(blinded_out.b@),
        ensures
            r == (pairing_of(blinded_out.b@, g2_gen_bytes()) == pairing_of(
                blinded_inp.0.b@,
                pp.pk.b@,
            )),
    {
        Self::prever_with_pk(blinded_inp, &pp.pk, blinded_out)
    }

    /// Unblinds the aggregate with the inverse of the blinding factor and
    /// hashes the result.  Fails exactly when the unblinded point is the
    /// identity, which cannot be serialized.
    pub fn unblind_output(bf: &FrBytes, out: &G1Bytes) -> (r: Result<(Vec<u8>, G1Bytes), DvrfError>)
        requires
            fr_wf(bf.b@),
            be_val(bf.b@) != 0,
            g1_wf(out.b@),
        ensures
            match r {
                Ok(p) => exists|v: nat|
                    #[trigger] ((v * be_val(bf.b@)) % fr_order()) == 1 && v < fr_order() && g1_wf(
                        p.1.b@,
                    ) && p.1.b@ == g1_mul_spec(out.b@, v) && p.1.b@ != g1_zero_bytes() && p.0@
                        == keccak256_spec(p.1.b@),
                Err(e) => e == DvrfError::InvalidPoint && exists|v: nat|
                    #[trigger] ((v * be_val(bf.b@)) % fr_order()) == 1 && v < fr_order()
                        && g1_mul_spec(out.b@, v) == g1_zero_bytes(),
            },
    {
        match fr_inv(bf) {
            Some(bf_inv) => Self::unblind_output_precomputed_inv(&bf_inv, out),
            None => {
                proof {
                    assert(false);
                }
                Err(DvrfError::InvalidPoint)
            },
        }
    }

    /// Unblinds the aggregate with a pre-inverted factor.
    pub fn unblind_output_precomputed_inv(bf_inv: &FrBytes, out: &G1Bytes) -> (r: Result<
        (Vec<u8>, G1Bytes),
        DvrfError,
    >)
        requires
            fr_wf(bf_inv.b@),
            g1_wf(out.b@),
        ensures
            match r {
                Ok(p) => g1_wf(p.1.b@) && p.1.b@ == g1_mul_spec(out.b@, be_val(bf_inv.b@))
                    && p.1.b@ != g1_zero_bytes() && p.0@ == keccak256_spec(p.1.b@),
                Err(e) => e == DvrfError::InvalidPoint && g1_mul_spec(out.b@, be_val(bf_inv.b@))
                    == g1_zero_bytes(),
            },
    {
        let pi = g1_mul(out, bf_inv);
        if all_zero(&pi.b) {
            return Err(DvrfError::InvalidPoint);
        }
        let y = hash_g1_to_bytes(&pi);
        Ok((y, pi))
    }

    /// Verifies an unblinded output against the original message and the
    /// committee public key: the pairing equation and the digest must both
    /// hold.
    pub fn verify_out_with_pk(inp: &[u8], out: &(Vec<u8>, G1Bytes), pk: &G2Bytes) -> (r: bool)
        requires
            g1_wf(out.1.b@),
            g2_wf(pk.b@),
        ensures
            r == (out.1.b@ != g1_zero_bytes() && pairing_of(out.1.b@, g2_gen_bytes())
                == pairing_of(hash_to_g1_spec(inp@), pk.b@) && out.0@ == keccak256_spec(
                out.1.b@,
            )),
    {
        GlowDvrf::out_ver_pk(inp, pk, out)
    }

    /// Verifies an unblinded output against the public key of the
    /// parameters.
    pub fn verify_out_with_pp(inp: &[u8], out: &(Vec<u8>, G1Bytes), pp: &DvrfPubParam) -> (r: bool)
        requires
            g1_wf(out.1.b@),
            g2_wf(pp.pk.b@),
        ensures
            r == (out.1.b@ != g1_zero_bytes() && pairing_of(out.1.b@, g2_gen_bytes())
                == pairing_of(hash_to_g1_spec(inp@), pp.pk.b@) && out.0@ == keccak256_spec(
                out.1.b@,
            )),
    {
        Self::verify_out_with_pk(inp, out, &pp.pk)
    }
}

} // verus!
