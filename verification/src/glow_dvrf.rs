//! The GLOW threshold DVRF over the BN-254 curves.  A trusted dealer shares
//! a committee secret with a random polynomial over Fr; each party's partial
//! evaluation is a BLS share of the output together with an
//! equal-discrete-log proof tying it to the party's verification key;
//! aggregation recombines the first `t` shares by Lagrange interpolation in
//! the exponent; the output verifies against the committee key by a pairing
//! equation.  The hashed variant additionally emits the Keccak digest of the
//! output point.
use vstd::prelude::*;

use crate::bn::{
    fr_add, fr_from_u64, fr_mul, fr_order, fr_wf, g1_gen_bytes, g1_generator, g1_mul,
    g1_mul_spec, g1_wf, g1_zero_bytes, g2_generator, g2_gen_bytes, g2_mul_gen, g2_mul_spec,
    g2_wf, pairing_check, pairing_of, FrBytes, G1Bytes, G2Bytes,
};
use crate::bytes::{all_zero, be_val};
use crate::dvrf::{DvrfConfig, DvrfError, DvrfPubParam, TrustedKeygenOutput};
use crate::hashes::{hash_g1_to_bytes, hash_to_g1, hash_to_g1_spec, keccak256_spec, rand_fr};
use crate::interpolation::{
    ids_of, interpolate, lagrange_coeffs_ok, lagrange_dens_ok, msm_upto, points_of,
};
use crate::zkp_glow::{
    generate_zkp_glow, validate_zkp_glow, zkp_glow_accepts, zkp_glow_built, InstanceGlow, ZkpGlow,
};
use vstd::arithmetic::div_mod::lemma_small_mod;

verus! {

/// The hashless GLOW DVRF: its output is a raw G1 point.
pub struct GlowDvrfHashless;

/// The hashed GLOW DVRF: its output carries the Keccak digest of the point.
pub struct GlowDvrf;

/// One party's partial evaluation: its share of the output point and the
/// proof that the share matches its verification key.
pub struct PartialEval {
    pub psig: G1Bytes,
    pub zkp_glow: ZkpGlow,
}

/// Well-formed partial evaluation bytes.
pub open spec fn peval_wf(p: PartialEval) -> bool {
    g1_wf(p.psig.b@) && fr_wf(p.zkp_glow.c.b@) && fr_wf(p.zkp_glow.s.b@)
}

/// The power `x^k` in Fr, with the factors multiplied as the evaluator
/// does.
pub open spec fn pow_q(x: nat, k: int) -> nat
    decreases k,
{
    if k <= 0 {
        1
    } else {
        (pow_q(x, k - 1) * x) % fr_order()
    }
}

/// The value in Fr of the polynomial prefix `coeffs[..k]` at `x`.
pub open spec fn poly_eval_upto(coeffs: Seq<nat>, x: nat, k: int) -> nat
    decreases k,
{
    if k <= 0 {
        0
    } else {
        (poly_eval_upto(coeffs, x, k - 1) + (pow_q(x, k - 1) * coeffs[k - 1]) % fr_order())
            % fr_order()
    }
}

/// The value in Fr of the polynomial with the given coefficients at `x`.
pub open spec fn poly_eval_q(coeffs: Seq<nat>, x: nat) -> nat {
    poly_eval_upto(coeffs, x, coeffs.len() as int)
}

/// The values of a coefficient vector.
pub open spec fn fr_vals(coeffs: Seq<FrBytes>) -> Seq<nat> {
    coeffs.map_values(|f: FrBytes| be_val(f.b@))
}

/// Evaluates the polynomial with the given coefficients at `x` over Fr.
pub(crate) fn eval_at(x: u64, poly: &Vec<FrBytes>) -> (r: FrBytes)
    requires
        forall|k: int| 0 <= k < poly.len() ==> fr_wf(#[trigger] poly[k].b@),
    ensures
        fr_wf(r.b@),
        be_val(r.b@) == poly_eval_q(fr_vals(poly@), x as nat),
{
    let x_fr = fr_from_u64(x);
    let mut eval = fr_from_u64(0);
    let mut x_i = fr_from_u64(1);
    let mut j: usize = 0;
    while j < poly.len()
        invariant
            j <= poly.len(),
            forall|k: int| 0 <= k < poly.len() ==> fr_wf(#[trigger] poly[k].b@),
            fr_wf(eval.b@),
            fr_wf(x_i.b@),
            fr_wf(x_fr.b@),
            be_val(x_fr.b@) == x as nat,
            be_val(eval.b@) == poly_eval_upto(fr_vals(poly@), x as nat, j as int),
            be_val(x_i.b@) == pow_q(x as nat, j as int),
        decreases poly.len() - j,
    {
        let term = fr_mul(&x_i, &poly[j]);
        let new_eval = fr_add(&eval, &term);
        let new_x_i = fr_mul(&x_i, &x_fr);
        proof {
            let q = fr_order() as int;
            let cs = fr_vals(poly@);
            let jj = j as int;
            assert(cs[jj] == be_val(poly[jj].b@));
            // x_i may be the unreduced 1 at j == 0; its value is below q
            // either way, so multiplying before or after reduction agrees.
            lemma_small_mod(pow_q(x as nat, jj), fr_order());
            vstd::arithmetic::div_mod::lemma_mul_mod_noop_left(
                pow_q(x as nat, jj) as int,
                cs[jj] as int,
                q,
            );
            vstd::arithmetic::div_mod::lemma_mul_mod_noop_left(
                pow_q(x as nat, jj) as int,
                x as int,
                q,
            );
            lemma_small_mod(poly_eval_upto(cs, x as nat, jj), fr_order());
            vstd::arithmetic::div_mod::lemma_mod_twice(
                (poly_eval_upto(cs, x as nat, jj) + (pow_q(x as nat, jj) * cs[jj]) % fr_order())
                    as int,
                q,
            );
        }
        eval = new_eval;
        x_i = new_x_i;
        j += 1;
    }
    eval
}

/// The dealer's equations, for the drawn coefficient values `cs`: the
/// committee secret is `cs[0]`, the public key is `g2 * cs[0]`, and party
/// `i + 1` holds the share `f(i + 1)` with its verification key
/// `g1 * f(i + 1)`.
pub open spec fn keygen_rel(config: DvrfConfig, r: TrustedKeygenOutput, cs: Seq<nat>) -> bool {
    &&& cs.len() == config.t
    &&& forall|k: int| 0 <= k < cs.len() ==> (#[trigger] cs[k]) < fr_order()
    &&& match r.committee_sk {
        Some(f) => fr_wf(f.b@) && be_val(f.b@) == cs[0],
        None => false,
    }
    &&& r.pp.pk.b@ == g2_mul_spec(g2_gen_bytes(), cs[0])
    &&& forall|i: int|
        0 <= i < config.n ==> {
            &&& (#[trigger] r.sks@[i]).0 == i + 1
            &&& r.pp.vks@[i].0 == i + 1
            &&& fr_wf(r.sks@[i].1.b@)
            &&& be_val(r.sks@[i].1.b@) == poly_eval_q(cs, (i + 1) as nat)
            &&& g1_wf(r.pp.vks@[i].1.b@)
            &&& r.pp.vks@[i].1.b@ == g1_mul_spec(g1_gen_bytes(), be_val(r.sks@[i].1.b@))
        }
}

/// What the trusted dealer promises of its output.
pub open spec fn keygen_ok(config: DvrfConfig, r: TrustedKeygenOutput) -> bool {
    &&& r.pp.config.t == config.t
    &&& r.pp.config.n == config.n
    &&& r.sks@.len() == config.n
    &&& r.pp.vks@.len() == config.n
    &&& g2_wf(r.pp.pk.b@)
    &&& exists|cs: Seq<nat>| #[trigger] keygen_rel(config, r, cs)
}

/// The ids of the first `t` partial evaluations.
pub open spec fn agg_ids(pevals: Seq<(usize, PartialEval)>, t: int) -> Seq<usize> {
    pevals.subrange(0, t).map_values(|p: (usize, PartialEval)| p.0)
}

/// The share points of the first `t` partial evaluations.
pub open spec fn agg_psigs(pevals: Seq<(usize, PartialEval)>, t: int) -> Seq<Seq<u8>> {
    pevals.subrange(0, t).map_values(|p: (usize, PartialEval)| p.1.psig.b@)
}

/// First-t selection: aggregation reads only the first `t` partial
/// evaluations, so two lists that agree on the ids and share points of
/// their first `t` entries are recombined over the same ids and points,
/// whatever follows them.
pub proof fn lemma_aggregate_uses_first_t(
    p1: Seq<(usize, PartialEval)>,
    p2: Seq<(usize, PartialEval)>,
    t: int,
)
    requires
        0 <= t <= p1.len(),
        t <= p2.len(),
        forall|i: int|
            0 <= i < t ==> (#[trigger] p1[i]).0 == p2[i].0 && p1[i].1.psig.b@ == p2[i].1.psig.b@,
    ensures
        agg_ids(p1, t) == agg_ids(p2, t),
        agg_psigs(p1, t) == agg_psigs(p2, t),
{
    assert(agg_ids(p1, t) =~= agg_ids(p2, t));
    assert(agg_psigs(p1, t) =~= agg_psigs(p2, t));
}

/// A partial evaluation on a base point: the share `point * sk` and an
/// equal-discrete-log proof for the instance `(g1, vk, point, share)` with
/// witness `sk`.
pub open spec fn part_eval_rel(h: Seq<u8>, sk: Seq<u8>, vk: Seq<u8>, p: PartialEval) -> bool {
    &&& p.psig.b@ == g1_mul_spec(h, be_val(sk))
    &&& exists|rn: Seq<u8>|
        fr_wf(rn) && #[trigger] zkp_glow_built(
            g1_gen_bytes(),
            vk,
            h,
            g1_mul_spec(h, be_val(sk)),
            sk,
            rn,
            p.zkp_glow.c.b@,
            p.zkp_glow.s.b@,
        )
}

impl GlowDvrfHashless {
    /// Trusted dealer keygen: draws `t` random coefficients and hands out
    /// the shares of the polynomial they define.
    pub fn keygen(config: &DvrfConfig) -> (r: TrustedKeygenOutput)
        requires
            1 <= config.t <= config.n <= 256,
        ensures
            keygen_ok(*config, r),
    {
        let t = config.t;
        let n = config.n;
        let mut coefficients: Vec<FrBytes> = Vec::new();
        while coefficients.len() < t
            invariant
                coefficients.len() <= t,
                forall|k: int| 0 <= k < coefficients.len() ==> fr_wf(#[trigger] coefficients[k].b@),
            decreases t - coefficients.len(),
        {
            coefficients.push(rand_fr());
        }
        let ghost cs = fr_vals(coefficients@);
        let committee_sk = coefficients[0].clone();
        let pk = g2_mul_gen(&committee_sk);
        let gen = g1_generator();
        let mut sks: Vec<(usize, FrBytes)> = Vec::new();
        let mut vks: Vec<(usize, G1Bytes)> = Vec::new();
        let mut i: usize = 1;
        while i <= n
            invariant
                1 <= i <= n + 1,
                n <= 256,
                coefficients.len() == t,
                cs == fr_vals(coefficients@),
                forall|k: int| 0 <= k < coefficients.len() ==> fr_wf(#[trigger] coefficients[k].b@),
                gen.b@ == g1_gen_bytes(),
                g1_wf(gen.b@),
                sks.len() == i - 1,
                vks.len() == i - 1,
                forall|k: int|
                    0 <= k < i - 1 ==> {
                        &&& (#[trigger] sks@[k]).0 == k + 1
                        &&& vks@[k].0 == k + 1
                        &&& fr_wf(sks@[k].1.b@)
                        &&& be_val(sks@[k].1.b@) == poly_eval_q(cs, (k + 1) as nat)
                        &&& g1_wf(vks@[k].1.b@)
                        &&& vks@[k].1.b@ == g1_mul_spec(g1_gen_bytes(), be_val(sks@[k].1.b@))
                    },
            decreases n + 1 - i,
        {
            let sk_i = eval_at(i as u64, &coefficients);
            let vk_i = g1_mul(&gen, &sk_i);
            sks.push((i, sk_i));
            vks.push((i, vk_i));
            i += 1;
        }
        let pp = DvrfPubParam { config: *config, vks, pk };
        let r = TrustedKeygenOutput { pp, sks, committee_sk: Some(committee_sk) };
        proof {
            assert(keygen_rel(*config, r, cs));
        }
        r
    }

    /// A party's partial evaluation on a raw base point: used directly by
    /// the blinding layer, which must not re-hash the point it signs.
    pub fn part_eval_on_point(point: &G1Bytes, sk: &FrBytes, vk: &G1Bytes) -> (r: PartialEval)
        requires
            g1_wf(point.b@),
            fr_wf(sk.b@),
            g1_wf(vk.b@),
        ensures
            peval_wf(r),
            part_eval_rel(point.b@, sk.b@, vk.b@, r),
    {
        let h_x = g1_mul(point, sk);
        let instance = InstanceGlow {
            g: g1_generator(),
            g_x: vk.clone(),
            h: point.clone(),
            h_x: h_x.clone(),
        };
        let zkp = generate_zkp_glow(&instance, sk);
        proof {
            let rn = choose|rn: Seq<u8>|
                fr_wf(rn) && #[trigger] zkp_glow_built(
                    instance.g.b@,
                    instance.g_x.b@,
                    instance.h.b@,
                    instance.h_x.b@,
                    sk.b@,
                    rn,
                    zkp.c.b@,
                    zkp.s.b@,
                );
            assert(fr_wf(rn) && zkp_glow_built(
                g1_gen_bytes(),
                vk.b@,
                point.b@,
                g1_mul_spec(point.b@, be_val(sk.b@)),
                sk.b@,
                rn,
                zkp.c.b@,
                zkp.s.b@,
            ));
        }
        PartialEval { psig: h_x, zkp_glow: zkp }
    }

    /// A party's partial evaluation of the message: a share of the output
    /// point `H1(m) * sk` with its correctness proof.
    pub fn part_eval(inp: &[u8], sk: &FrBytes, vk: &G1Bytes) -> (r: PartialEval)
        requires
            fr_wf(sk.b@),
            g1_wf(vk.b@),
        ensures
            peval_wf(r),
            part_eval_rel(hash_to_g1_spec(inp@), sk.b@, vk.b@, r),
    {
        let h = hash_to_g1(inp);
        Self::part_eval_on_point(&h, sk, vk)
    }

    /// Checks a partial evaluation against a raw base point.
    pub fn part_ver_on_point(point: &G1Bytes, vk: &G1Bytes, peval: &PartialEval) -> (r: bool)
        requires
            g1_wf(point.b@),
            g1_wf(vk.b@),
            peval_wf(*peval),
        ensures
            r == zkp_glow_accepts(
                g1_gen_bytes(),
                vk.b@,
                point.b@,
                peval.psig.b@,
                peval.zkp_glow.c.b@,
                peval.zkp_glow.s.b@,
            ),
    {
        let instance = InstanceGlow {
            g: g1_generator(),
            g_x: vk.clone(),
            h: point.clone(),
            h_x: peval.psig.clone(),
        };
        validate_zkp_glow(&instance, &peval.zkp_glow)
    }

    /// Checks a partial evaluation of the message against the party's
    /// verification key.
    pub fn part_ver(inp: &[u8], vk: &G1Bytes, peval: &PartialEval) -> (r: bool)
        requires
            g1_wf(vk.b@),
            peval_wf(*peval),
        ensures
            r == zkp_glow_accepts(
                g1_gen_bytes(),
                vk.b@,
                hash_to_g1_spec(inp@),
                peval.psig.b@,
                peval.zkp_glow.c.b@,
                peval.zkp_glow.s.b@,
            ),
    {
        let h = hash_to_g1(inp);
        Self::part_ver_on_point(&h, vk, peval)
    }

    /// Recombines the first `threshold` partial evaluations by Lagrange
    /// interpolation in the exponent.  Fails exactly when fewer partials
    /// than the threshold arrive, or when two of the used ids coincide so
    /// that a Lagrange denominator is zero.  Invalid partials are not
    /// detected here: the caller is expected to pre-filter with part_ver.
    pub fn aggregate(threshold: usize, pevals: Vec<(usize, PartialEval)>) -> (r: Result<
        G1Bytes,
        DvrfError,
    >)
        requires
            forall|k: int| 0 <= k < pevals.len() ==> peval_wf(#[trigger] pevals[k].1),
        ensures
            (pevals@.len() < threshold) == (r == Err::<G1Bytes, DvrfError>(
                DvrfError::InsufficientPartials,
            )),
            (pevals@.len() >= threshold && !lagrange_dens_ok(
                agg_ids(pevals@, threshold as int),
            )) == (r == Err::<G1Bytes, DvrfError>(DvrfError::DuplicateIdentifier)),
            match r {
                Ok(out) => {
                    &&& pevals@.len() >= threshold
                    &&& lagrange_dens_ok(agg_ids(pevals@, threshold as int))
                    &&& g1_wf(out.b@)
                    &&& exists|lams: Seq<nat>|
                        #[trigger] lagrange_coeffs_ok(agg_ids(pevals@, threshold as int), lams)
                            && out.b@ == msm_upto(
                            lams,
                            agg_psigs(pevals@, threshold as int),
                            threshold as int,
                        )
                },
                Err(e) => e == DvrfError::InsufficientPartials || e
                    == DvrfError::DuplicateIdentifier,
            },
    {
        if pevals.len() < threshold {
            return Err(DvrfError::InsufficientPartials);
        }
        let mut subset: Vec<(usize, G1Bytes)> = Vec::new();
        let mut k: usize = 0;
        while k < threshold
            invariant
                k <= threshold,
                threshold <= pevals.len(),
                forall|t: int| 0 <= t < pevals.len() ==> peval_wf(#[trigger] pevals[t].1),
                subset.len() == k,
                forall|t: int|
                    0 <= t < k ==> (#[trigger] subset@[t]).0 == pevals@[t].0 && subset@[t].1.b@
                        == pevals@[t].1.psig.b@,
            decreases threshold - k,
        {
            subset.push((pevals[k].0, pevals[k].1.psig.clone()));
            k += 1;
        }
        proof {
            assert(ids_of(subset@) =~= agg_ids(pevals@, threshold as int));
            assert(points_of(subset@) =~= agg_psigs(pevals@, threshold as int));
        }
        match interpolate(subset) {
            None => Err(DvrfError::DuplicateIdentifier),
            Some(out) => Ok(out),
        }
    }

    /// Aggregates with the threshold of a configuration.
    pub fn aggregate_with_config(config: &DvrfConfig, pevals: Vec<(usize, PartialEval)>) -> (r:
        Result<G1Bytes, DvrfError>)
        requires
            forall|k: int| 0 <= k < pevals.len() ==> peval_wf(#[trigger] pevals[k].1),
        ensures
            (pevals@.len() < config.t) == (r == Err::<G1Bytes, DvrfError>(
                DvrfError::InsufficientPartials,
            )),
            (pevals@.len() >= config.t && !lagrange_dens_ok(
                agg_ids(pevals@, config.t as int),
            )) == (r == Err::<G1Bytes, DvrfError>(DvrfError::DuplicateIdentifier)),
            match r {
                Ok(out) => {
                    &&& pevals@.len() >= config.t
                    &&& lagrange_dens_ok(agg_ids(pevals@, config.t as int))
                    &&& g1_wf(out.b@)
                    &&& exists|lams: Seq<nat>|
                        #[trigger] lagrange_coeffs_ok(agg_ids(pevals@, config.t as int), lams)
                            && out.b@ == msm_upto(
                            lams,
                            agg_psigs(pevals@, config.t as int),
                            config.t as int,
                        )
                },
                Err(e) => e == DvrfError::InsufficientPartials || e
                    == DvrfError::DuplicateIdentifier,
            },
    {
        Self::aggregate(config.t, pevals)
    }

    /// Aggregates with the threshold of the public parameters.
    pub fn aggregate_with_pp(pp: &DvrfPubParam, pevals: Vec<(usize, PartialEval)>) -> (r: Result<
        G1Bytes,
        DvrfError,
    >)
        requires
            forall|k: int| 0 <= k < pevals.len() ==> peval_wf(#[trigger] pevals[k].1),
        ensures
            (pevals@.len() < pp.config.t) == (r == Err::<G1Bytes, DvrfError>(
                DvrfError::InsufficientPartials,
            )),
            (pevals@.len() >= pp.config.t && !lagrange_dens_ok(
                agg_ids(pevals@, pp.config.t as int),
            )) == (r == Err::<G1Bytes, DvrfError>(DvrfError::DuplicateIdentifier)),
            match r {
                Ok(out) => {
                    &&& pevals@.len() >= pp.config.t
                    &&& lagrange_dens_ok(agg_ids(pevals@, pp.config.t as int))
                    &&& g1_wf(out.b@)
                    &&& exists|lams: Seq<nat>|
                        #[trigger] lagrange_coeffs_ok(agg_ids(pevals@, pp.config.t as int), lams)
                            && out.b@ == msm_upto(
                            lams,
                            agg_psigs(pevals@, pp.config.t as int),
                            pp.config.t as int,
                        )
                },
                Err(e) => e == DvrfError::InsufficientPartials || e
                    == DvrfError::DuplicateIdentifier,
            },
    {
        Self::aggregate(pp.config.t, pevals)
    }

    /// Verifies an output point against a raw base point and the committee
    /// public key: `e(out, g2) == e(point, pk)`.
    pub fn out_ver_on_point(point: &G1Bytes, pk: &G2Bytes, out: &G1Bytes) -> (r: bool)
        requires
            g1_wf(point.b@),
            g2_wf(pk.b@),
            g1_wf(out.b@),
        ensures
            r == (pairing_of(out.b@, g2_gen_bytes()) == pairing_of(point.b@, pk.b@)),
    {
        let g2 = g2_generator();
        pairing_check(out, &g2, point, pk)
    }

    /// Verifies an output point against the message and the committee
    /// public key: `e(out, g2) == e(H1(m), pk)`.
    pub fn out_ver_pk(inp: &[u8], pk: &G2Bytes, out: &G1Bytes) -> (r: bool)
        requires
            g2_wf(pk.b@),
            g1_wf(out.b@),
        ensures
            r == (pairing_of(out.b@, g2_gen_bytes()) == pairing_of(hash_to_g1_spec(inp@), pk.b@)),
    {
        let h = hash_to_g1(inp);
        Self::out_ver_on_point(&h, pk, out)
    }

    /// Verifies an output point against the public key of the parameters.
    pub fn out_ver_pp(inp: &[u8], pp: &DvrfPubParam, out: &G1Bytes) -> (r: bool)
        requires
            g2_wf(pp.pk.b@),
            g1_wf(out.b@),
        ensures
            r == (pairing_of(out.b@, g2_gen_bytes()) == pairing_of(
                hash_to_g1_spec(inp@),
                pp.pk.b@,
            )),
    {
        Self::out_ver_pk(inp, &pp.pk, out)
    }
}

impl GlowDvrf {
    /// Trusted dealer keygen: the same dealer as the hashless variant.
    pub fn keygen(config: &DvrfConfig) -> (r: TrustedKeygenOutput)
        requires
            1 <= config.t <= config.n <= 256,
        ensures
            keygen_ok(*config, r),
    {
        GlowDvrfHashless::keygen(config)
    }

    /// A party's partial evaluation of the message.
    pub fn part_eval(inp: &[u8], sk: &FrBytes, vk: &G1Bytes) -> (r: PartialEval)
        requires
            fr_wf(sk.b@),
            g1_wf(vk.b@),
        ensures
            peval_wf(r),
            part_eval_rel(hash_to_g1_spec(inp@), sk.b@, vk.b@, r),
    {
        GlowDvrfHashless::part_eval(inp, sk, vk)
    }

    /// Checks a partial evaluation of the message.
    pub fn part_ver(inp: &[u8], vk: &G1Bytes, peval: &PartialEval) -> (r: bool)
        requires
            g1_wf(vk.b@),
            peval_wf(*peval),
        ensures
            r == zkp_glow_accepts(
                g1_gen_bytes(),
                vk.b@,
                hash_to_g1_spec(inp@),
                peval.psig.b@,
                peval.zkp_glow.c.b@,
                peval.zkp_glow.s.b@,
            ),
    {
        GlowDvrfHashless::part_ver(inp, vk, peval)
    }

    /// Aggregates the first `threshold` partials and emits the output point
    /// with its 32-byte Keccak digest.  Beyond the failures of the hashless
    /// aggregate, fails when the recombined point is the identity, which
    /// cannot be serialized.
    pub fn aggregate(threshold: usize, pevals: Vec<(usize, PartialEval)>) -> (r: Result<
        (Vec<u8>, G1Bytes),
        DvrfError,
    >)
        requires
            forall|k: int| 0 <= k < pevals.len() ==> peval_wf(#[trigger] pevals[k].1),
        ensures
            (pevals@.len() < threshold) == (r == Err::<(Vec<u8>, G1Bytes), DvrfError>(
                DvrfError::InsufficientPartials,
            )),
            (pevals@.len() >= threshold && !lagrange_dens_ok(
                agg_ids(pevals@, threshold as int),
            )) == (r == Err::<(Vec<u8>, G1Bytes), DvrfError>(DvrfError::DuplicateIdentifier)),
            match r {
                Ok(out) => {
                    &&& pevals@.len() >= threshold
                    &&& lagrange_dens_ok(agg_ids(pevals@, threshold as int))
                    &&& g1_wf(out.1.b@)
                    &&& out.1.b@ != g1_zero_bytes()
                    &&& out.0@ == keccak256_spec(out.1.b@)
                    &&& exists|lams: Seq<nat>|
                        #[trigger] lagrange_coeffs_ok(agg_ids(pevals@, threshold as int), lams)
                            && out.1.b@ == msm_upto(
                            lams,
                            agg_psigs(pevals@, threshold as int),
                            threshold as int,
                        )
                },
                Err(e) => {
                    &&& (e == DvrfError::InvalidPoint ==> exists|lams: Seq<nat>|
                        #[trigger] lagrange_coeffs_ok(agg_ids(pevals@, threshold as int), lams)
                            && g1_zero_bytes() == msm_upto(
                            lams,
                            agg_psigs(pevals@, threshold as int),
                            threshold as int,
                        ))
                    &&& (e == DvrfError::InsufficientPartials || e
                        == DvrfError::DuplicateIdentifier || e == DvrfError::InvalidPoint)
                },
            },
    {
        match GlowDvrfHashless::aggregate(threshold, pevals) {
            Err(e) => Err(e),
            Ok(out) => {
                if all_zero(&out.b) {
                    return Err(DvrfError::InvalidPoint);
                }
                let y = hash_g1_to_bytes(&out);
                Ok((y, out))
            },
        }
    }

    /// Aggregates with the threshold of a configuration.
    pub fn aggregate_with_config(config: &DvrfConfig, pevals: Vec<(usize, PartialEval)>) -> (r:
        Result<(Vec<u8>, G1Bytes), DvrfError>)
        requires
            forall|k: int| 0 <= k < pevals.len() ==> peval_wf(#[trigger] pevals[k].1),
        ensures
            (pevals@.len() < config.t) == (r == Err::<(Vec<u8>, G1Bytes), DvrfError>(
                DvrfError::InsufficientPartials,
            )),
            (pevals@.len() >= config.t && !lagrange_dens_ok(
                agg_ids(pevals@, config.t as int),
            )) == (r == Err::<(Vec<u8>, G1Bytes), DvrfError>(DvrfError::DuplicateIdentifier)),
            match r {
                Ok(out) => {
                    &&& pevals@.len() >= config.t
                    &&& lagrange_dens_ok(agg_ids(pevals@, config.t as int))
                    &&& g1_wf(out.1.b@)
                    &&& out.1.b@ != g1_zero_bytes()
                    &&& out.0@ == keccak256_spec(out.1.b@)
                    &&& exists|lams: Seq<nat>|
                        #[trigger] lagrange_coeffs_ok(agg_ids(pevals@, config.t as int), lams)
                            && out.1.b@ == msm_upto(
                            lams,
                            agg_psigs(pevals@, config.t as int),
                            config.t as int,
                        )
                },
                Err(e) => {
                    &&& (e == DvrfError::InvalidPoint ==> exists|lams: Seq<nat>|
                        #[trigger] lagrange_coeffs_ok(agg_ids(pevals@, config.t as int), lams)
                            && g1_zero_bytes() == msm_upto(
                            lams,
                            agg_psigs(pevals@, config.t as int),
                            config.t as int,
                        ))
                    &&& (e == DvrfError::InsufficientPartials || e
                        == DvrfError::DuplicateIdentifier || e == DvrfError::InvalidPoint)
                },
            },
    {
        Self::aggregate(config.t, pevals)
    }

    /// Aggregates with the threshold of the public parameters.
    pub fn aggregate_with_pp(pp: &DvrfPubParam, pevals: Vec<(usize, PartialEval)>) -> (r: Result<
        (Vec<u8>, G1Bytes),
        DvrfError,
    >)
        requires
            forall|k: int| 0 <= k < pevals.len() ==> peval_wf(#[trigger] pevals[k].1),
        ensures
            (pevals@.len() < pp.config.t) == (r == Err::<(Vec<u8>, G1Bytes), DvrfError>(
                DvrfError::InsufficientPartials,
            )),
            (pevals@.len() >= pp.config.t && !lagrange_dens_ok(
                agg_ids(pevals@, pp.config.t as int),
            )) == (r == Err::<(Vec<u8>, G1Bytes), DvrfError>(DvrfError::DuplicateIdentifier)),
            match r {
                Ok(out) => {
                    &&& pevals@.len() >= pp.config.t
                    &&& lagrange_dens_ok(agg_ids(pevals@, pp.config.t as int))
                    &&& g1_wf(out.1.b@)
                    &&& out.1.b@ != g1_zero_bytes()
                    &&& out.0@ == keccak256_spec(out.1.b@)
                    &&& exists|lams: Seq<nat>|
                        #[trigger] lagrange_coeffs_ok(agg_ids(pevals@, pp.config.t as int), lams)
                            && out.1.b@ == msm_upto(
                            lams,
                            agg_psigs(pevals@, pp.config.t as int),
                            pp.config.t as int,
                        )
                },
                Err(e) => {
                    &&& (e == DvrfError::InvalidPoint ==> exists|lams: Seq<nat>|
                        #[trigger] lagrange_coeffs_ok(agg_ids(pevals@, pp.config.t as int), lams)
                            && g1_zero_bytes() == msm_upto(
                            lams,
                            agg_psigs(pevals@, pp.config.t as int),
                            pp.config.t as int,
                        ))
                    &&& (e == DvrfError::InsufficientPartials || e
                        == DvrfError::DuplicateIdentifier || e == DvrfError::InvalidPoint)
                },
            },
    {
        Self::aggregate(pp.config.t, pevals)
    }

    /// Verifies a hashed output: the point must verify as in the hashless
    /// variant and the digest must match the point.
    pub fn out_ver_pk(inp: &[u8], pk: &G2Bytes, out: &(Vec<u8>, G1Bytes)) -> (r: bool)
        requires
            g2_wf(pk.b@),
            g1_wf(out.1.b@),
        ensures
            r == (out.1.b@ != g1_zero_bytes() && pairing_of(out.1.b@, g2_gen_bytes())
                == pairing_of(hash_to_g1_spec(inp@), pk.b@) && out.0@ == keccak256_spec(
                out.1.b@,
            )),
    {
        if all_zero(&out.1.b) {
            return false;
        }
        let pair_ok = GlowDvrfHashless::out_ver_pk(inp, pk, &out.1);
        if !pair_ok {
            return false;
        }
        let y = hash_g1_to_bytes(&out.1);
        crate::bytes::bytes_eq(&out.0, &y)
    }

    /// Verifies a hashed output against the public key of the parameters.
    pub fn out_ver_pp(inp: &[u8], pp: &DvrfPubParam, out: &(Vec<u8>, G1Bytes)) -> (r: bool)
        requires
            g2_wf(pp.pk.b@),
            g1_wf(out.1.b@),
        ensures
            r == (out.1.b@ != g1_zero_bytes() && pairing_of(out.1.b@, g2_gen_bytes())
                == pairing_of(hash_to_g1_spec(inp@), pp.pk.b@) && out.0@ == keccak256_spec(
                out.1.b@,
            )),
    {
        Self::out_ver_pk(inp, &pp.pk, out)
    }
}

impl Clone for PartialEval {
    fn clone(&self) -> (r: Self)
        ensures
            r.psig.b@ == self.psig.b@,
            r.zkp_glow.c.b@ == self.zkp_glow.c.b@,
            r.zkp_glow.s.b@ == self.zkp_glow.s.b@,
    {
        PartialEval { psig: self.psig.clone(), zkp_glow: self.zkp_glow.clone() }
    }
}

} // verus!
