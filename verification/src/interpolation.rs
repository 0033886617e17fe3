//! Lagrange interpolation at zero in the exponent: given points
//! `(id_i, P_i)` with `P_i = f(id_i) * G`, the sum of `lambda_i(0) * P_i`
//! recovers `f(0) * G`.  The coefficient `lambda_i(0)` is the product of the
//! other ids divided by the product of their differences to `id_i`, all in
//! Fr.
use vstd::prelude::*;

use crate::bn::{
    fr_from_u64, fr_inv, fr_mul, fr_order, fr_sub, fr_wf, g1_add, g1_add_spec, g1_mul,
    g1_mul_spec, g1_wf, g1_zero, g1_zero_bytes, FrBytes, G1Bytes,
};
use crate::bytes::be_val;
use vstd::arithmetic::div_mod::{
    lemma_mod_twice, lemma_mul_mod_noop_left, lemma_mul_mod_noop_right,
};

verus! {

/// The difference of two id values in Fr.
pub open spec fn diff_fr(a: nat, b: nat) -> nat {
    ((a + fr_order() - b) % (fr_order() as int)) as nat
}

/// Product in Fr of `ids[j]` over `j < k`, `j != i`.
pub open spec fn lag_num_upto(ids: Seq<usize>, i: int, k: int) -> nat
    decreases k,
{
    if k <= 0 {
        1
    } else if k - 1 == i {
        lag_num_upto(ids, i, k - 1)
    } else {
        (lag_num_upto(ids, i, k - 1) * (ids[k - 1] as nat)) % fr_order()
    }
}

/// Product in Fr of `ids[j] - ids[i]` over `j < k`, `j != i`.
pub open spec fn lag_den_upto(ids: Seq<usize>, i: int, k: int) -> nat
    decreases k,
{
    if k <= 0 {
        1
    } else if k - 1 == i {
        lag_den_upto(ids, i, k - 1)
    } else {
        (lag_den_upto(ids, i, k - 1) * diff_fr(ids[k - 1] as nat, ids[i] as nat)) % fr_order()
    }
}

/// Every denominator product is invertible in Fr; a zero denominator means
/// two equal ids.
pub open spec fn lagrange_dens_ok(ids: Seq<usize>) -> bool {
    forall|i: int|
        0 <= i < ids.len() ==> #[trigger] lag_den_upto(ids, i, ids.len() as int) % fr_order() != 0
}

/// The values `lams` are the Lagrange coefficients at zero for `ids`: each
/// is reduced and multiplying it by its denominator product gives its
/// numerator product.  Because Fr is a field this pins each value.
pub open spec fn lagrange_coeffs_ok(ids: Seq<usize>, lams: Seq<nat>) -> bool {
    lams.len() == ids.len() && forall|i: int|
        0 <= i < ids.len() ==> (#[trigger] lams[i]) < fr_order() && (lams[i] * lag_den_upto(
            ids,
            i,
            ids.len() as int,
        )) % fr_order() == lag_num_upto(ids, i, ids.len() as int) % fr_order()
}

/// The ids of an interpolation input.
pub open spec fn ids_of(inp: Seq<(usize, G1Bytes)>) -> Seq<usize> {
    inp.map_values(|p: (usize, G1Bytes)| p.0)
}

/// The point bytes of an interpolation input.
pub open spec fn points_of(inp: Seq<(usize, G1Bytes)>) -> Seq<Seq<u8>> {
    inp.map_values(|p: (usize, G1Bytes)| p.1.b@)
}

/// The partial sum of `lams[j] * pts[j]` over `j < k`, starting from the
/// identity.
pub open spec fn msm_upto(lams: Seq<nat>, pts: Seq<Seq<u8>>, k: int) -> Seq<u8>
    decreases k,
{
    if k <= 0 {
        g1_zero_bytes()
    } else {
        g1_add_spec(msm_upto(lams, pts, k - 1), g1_mul_spec(pts[k - 1], lams[k - 1]))
    }
}

/// An inverse modulo `q` cancels: from `(inv * den) % q == 1` it follows
/// that `(((inv * num) % q) * den) % q == num % q`.
proof fn lemma_inv_cancel(inv: int, den: int, num: int, q: int)
    requires
        q > 0,
        0 <= inv,
        0 <= den,
        0 <= num,
        (inv * den) % q == 1,
    ensures
        (((inv * num) % q) * den) % q == num % q,
{
    lemma_mul_mod_noop_left(inv * num, den, q);
    assert((inv * num) * den == (inv * den) * num) by (nonlinear_arith);
    lemma_mul_mod_noop_left(inv * den, num, q);
    assert((((inv * den) % q) * num) % q == (1 * num) % q);
}

/// The Lagrange coefficients at zero for the given ids, or none when a
/// denominator product is zero in Fr, which means two ids are equal mod the
/// Fr order.
pub(crate) fn lagrange_at_zero(ids: &Vec<usize>) -> (r: Option<Vec<FrBytes>>)
    ensures
        match r {
            Some(lams) => lagrange_dens_ok(ids@) && (forall|i: int|
                0 <= i < lams.len() ==> fr_wf(#[trigger] lams[i].b@)) && lagrange_coeffs_ok(
                ids@,
                lams@.map_values(|f: FrBytes| be_val(f.b@)),
            ),
            None => !lagrange_dens_ok(ids@),
        },
{
    let len = ids.len();
    let mut coefficients: Vec<FrBytes> = Vec::new();
    let mut i: usize = 0;
    while i < len
        invariant
            i <= len,
            len == ids.len(),
            coefficients.len() == i,
            forall|t: int|
                0 <= t < i ==> fr_wf(#[trigger] coefficients[t].b@) && lag_den_upto(
                    ids@,
                    t,
                    len as int,
                ) % fr_order() != 0 && (be_val(coefficients[t].b@) * lag_den_upto(
                    ids@,
                    t,
                    len as int,
                )) % fr_order() == lag_num_upto(ids@, t, len as int) % fr_order(),
        decreases len - i,
    {
        let mut num = fr_from_u64(1);
        let mut den = fr_from_u64(1);
        let id_i = fr_from_u64(ids[i] as u64);
        let mut j: usize = 0;
        proof {
            vstd::arithmetic::div_mod::lemma_small_mod(1, fr_order());
        }
        while j < len
            invariant
                j <= len,
                len == ids.len(),
                i < len,
                fr_wf(num.b@),
                fr_wf(den.b@),
                fr_wf(id_i.b@),
                be_val(id_i.b@) == ids@[i as int] as nat,
                be_val(num.b@) == lag_num_upto(ids@, i as int, j as int) % fr_order(),
                be_val(den.b@) == lag_den_upto(ids@, i as int, j as int) % fr_order(),
            decreases len - j,
        {
            if j != i {
                let id_j = fr_from_u64(ids[j] as u64);
                let new_num = fr_mul(&num, &id_j);
                let diff = fr_sub(&id_j, &id_i);
                let new_den = fr_mul(&den, &diff);
                proof {
                    let q = fr_order() as int;
                    let jj = j as int;
                    let ii = i as int;
                    lemma_mul_mod_noop_left(
                        lag_num_upto(ids@, ii, jj) as int,
                        ids@[jj] as int,
                        q,
                    );
                    lemma_mod_twice(
                        lag_num_upto(ids@, ii, jj) as int * (ids@[jj] as int),
                        q,
                    );
                    lemma_mul_mod_noop_left(
                        lag_den_upto(ids@, ii, jj) as int,
                        diff_fr(ids@[jj] as nat, ids@[ii] as nat) as int,
                        q,
                    );
                    lemma_mod_twice(
                        lag_den_upto(ids@, ii, jj) as int * (diff_fr(
                            ids@[jj] as nat,
                            ids@[ii] as nat,
                        ) as int),
                        q,
                    );
                }
                num = new_num;
                den = new_den;
            }
            j += 1;
        }
        let inv = fr_inv(&den);
        match inv {
            None => {
                proof {
                    assert(lag_den_upto(ids@, i as int, len as int) % fr_order() == 0);
                }
                return None;
            },
            Some(inv_v) => {
                let lam = fr_mul(&inv_v, &num);
                proof {
                    let q = fr_order() as int;
                    let ii = i as int;
                    let numv = lag_num_upto(ids@, ii, len as int) as int;
                    let denv = lag_den_upto(ids@, ii, len as int) as int;
                    let invv = be_val(inv_v.b@) as int;
                    // inv inverts den % q, hence it cancels den itself.
                    lemma_inv_cancel(invv, denv % q, numv % q, q);
                    lemma_mul_mod_noop_right(invv, numv, q);
                    lemma_mul_mod_noop_right(
                        (invv * (numv % q)) % q,
                        denv,
                        q,
                    );
                    lemma_mod_twice(numv, q);
                }
                coefficients.push(lam);
            },
        }
        i += 1;
    }
    proof {
        let lamvals = coefficients@.map_values(|f: FrBytes| be_val(f.b@));
        assert forall|t: int| 0 <= t < ids@.len() implies (#[trigger] lamvals[t]) < fr_order() && (
        lamvals[t] * lag_den_upto(ids@, t, ids@.len() as int)) % fr_order() == lag_num_upto(
            ids@,
            t,
            ids@.len() as int,
        ) % fr_order() by {
            assert(fr_wf(coefficients[t].b@));
            assert(lamvals[t] == be_val(coefficients[t].b@));
        }
        assert forall|t: int| 0 <= t < ids@.len() implies #[trigger] lag_den_upto(
            ids@,
            t,
            ids@.len() as int,
        ) % fr_order() != 0 by {
            assert(fr_wf(coefficients[t].b@));
        }
        assert(lagrange_coeffs_ok(ids@, lamvals));
    }
    Some(coefficients)
}

/// Interpolates at zero over G1: the sum of `lambda_i(0) * P_i`, or none
/// when two ids coincide so that a Lagrange denominator is zero.
pub fn interpolate(inp: Vec<(usize, G1Bytes)>) -> (r: Option<G1Bytes>)
    requires
        forall|k: int| 0 <= k < inp.len() ==> g1_wf(#[trigger] inp[k].1.b@),
    ensures
        match r {
            Some(out) => lagrange_dens_ok(ids_of(inp@)) && g1_wf(out.b@) && (exists|lams: Seq<nat>|
                lagrange_coeffs_ok(ids_of(inp@), lams) && out.b@ == msm_upto(
                    lams,
                    points_of(inp@),
                    inp@.len() as int,
                )),
            None => !lagrange_dens_ok(ids_of(inp@)),
        },
{
    let len = inp.len();
    let mut ids: Vec<usize> = Vec::new();
    let mut k: usize = 0;
    while k < len
        invariant
            k <= len,
            len == inp.len(),
            ids.len() == k,
            forall|t: int| 0 <= t < k ==> ids@[t] == #[trigger] inp@[t].0,
        decreases len - k,
    {
        ids.push(inp[k].0);
        k += 1;
    }
    proof {
        assert(ids@ =~= ids_of(inp@));
    }
    let lams = match lagrange_at_zero(&ids) {
        None => {
            return None;
        },
        Some(l) => l,
    };
    let ghost lamvals = lams@.map_values(|f: FrBytes| be_val(f.b@));
    let mut out = g1_zero();
    let mut k2: usize = 0;
    while k2 < len
        invariant
            k2 <= len,
            len == inp.len(),
            lams.len() == len,
            forall|k: int| 0 <= k < inp.len() ==> g1_wf(#[trigger] inp[k].1.b@),
            forall|t: int| 0 <= t < len ==> fr_wf(#[trigger] lams[t].b@),
            lamvals == lams@.map_values(|f: FrBytes| be_val(f.b@)),
            g1_wf(out.b@),
            out.b@ == msm_upto(lamvals, points_of(inp@), k2 as int),
        decreases len - k2,
    {
        let term = g1_mul(&inp[k2].1, &lams[k2]);
        out = g1_add(&out, &term);
        k2 += 1;
    }
    proof {
        assert(lagrange_coeffs_ok(ids_of(inp@), lamvals) && out.b@ == msm_upto(
            lamvals,
            points_of(inp@),
            inp@.len() as int,
        ));
    }
    Some(out)
}

} // verus!
