//! Byte-level model of the BN-254 pairing curve: the scalar field Fr, the
//! groups G1 and G2, and the pairing, with the curve arithmetic of the
//! substrate_bn crate behind trusted wrappers.
//!
//! A scalar is 32 big-endian bytes below the Fr order.  A G1 point is 64
//! bytes, the big-endian affine coordinates `x || y`; 64 zero bytes stand for
//! the identity, which has no affine form ((0, 0) is not on the curve).  A G2
//! point is 128 bytes, `x.re || x.im || y.re || y.im`, with 128 zero bytes
//! for the identity.
use vstd::prelude::*;

use crate::bytes::{be_bytes, be_val, bytes_eq, clone_bytes, zero_bytes};
use substrate_bn::Group;

verus! {

/// Order of the BN-254 scalar field Fr (a prime).
pub open spec fn fr_order() -> nat {
    21888242871839275222246405745257275088548364400416034343698204186575808495617nat
}

/// Order of the BN-254 base field Fq (a prime).
pub open spec fn fq_order() -> nat {
    21888242871839275222246405745257275088696311157297823662689037894645226208583nat
}

/// A scalar of Fr as 32 canonical big-endian bytes.
#[derive(Debug)]
pub struct FrBytes {
    pub b: Vec<u8>,
}

/// A G1 point as 64 affine coordinate bytes (all zero for the identity).
#[derive(Debug)]
pub struct G1Bytes {
    pub b: Vec<u8>,
}

/// A G2 point as 128 affine coordinate bytes (all zero for the identity).
#[derive(Debug)]
pub struct G2Bytes {
    pub b: Vec<u8>,
}

/// Canonical scalar bytes: 32 bytes, value below the Fr order.
pub open spec fn fr_wf(s: Seq<u8>) -> bool {
    s.len() == 32 && be_val(s) < fr_order()
}

/// The identity encoding of G1.
pub open spec fn g1_zero_bytes() -> Seq<u8> {
    zero_bytes(64)
}

/// The affine x coordinate held in a 64-byte G1 encoding.
pub open spec fn g1_x(s: Seq<u8>) -> nat {
    be_val(s.subrange(0, 32))
}

/// The affine y coordinate held in a 64-byte G1 encoding.
pub open spec fn g1_y(s: Seq<u8>) -> nat {
    be_val(s.subrange(32, 64))
}

/// Canonical coordinates satisfying the G1 curve equation y^2 = x^3 + 3.
pub open spec fn g1_on_curve(s: Seq<u8>) -> bool {
    g1_x(s) < fq_order() && g1_y(s) < fq_order() && (g1_y(s) * g1_y(s)) % fq_order() == (g1_x(s)
        * g1_x(s) * g1_x(s) + 3) % fq_order()
}

/// Well-formed G1 encoding: the identity or a point on the curve.
pub open spec fn g1_wf(s: Seq<u8>) -> bool {
    s.len() == 64 && (s == g1_zero_bytes() || g1_on_curve(s))
}

/// The identity encoding of G2.
pub open spec fn g2_zero_bytes() -> Seq<u8> {
    zero_bytes(128)
}

/// Real part of an Fq2 product.
pub open spec fn fq2_mul_re(a0: nat, a1: nat, b0: nat, b1: nat) -> nat {
    ((a0 * b0 + fq_order() * fq_order() - a1 * b1) % (fq_order() as int)) as nat
}

/// Imaginary part of an Fq2 product.
pub open spec fn fq2_mul_im(a0: nat, a1: nat, b0: nat, b1: nat) -> nat {
    (a0 * b1 + a1 * b0) % fq_order()
}

/// Real part of the G2 curve constant b' = 3 / (9 + i).
pub open spec fn g2_b_re() -> nat {
    19485874751759354771024239261021720505790618469301721065564631296452457478373nat
}

/// Imaginary part of the G2 curve constant b' = 3 / (9 + i).
pub open spec fn g2_b_im() -> nat {
    266929791119991161246907387137283842545076965332900288569378510910307636690nat
}

/// The four Fq coordinates held in a 128-byte G2 encoding.
pub open spec fn g2_x_re(s: Seq<u8>) -> nat {
    be_val(s.subrange(0, 32))
}

pub open spec fn g2_x_im(s: Seq<u8>) -> nat {
    be_val(s.subrange(32, 64))
}

pub open spec fn g2_y_re(s: Seq<u8>) -> nat {
    be_val(s.subrange(64, 96))
}

pub open spec fn g2_y_im(s: Seq<u8>) -> nat {
    be_val(s.subrange(96, 128))
}

/// Canonical coordinates satisfying the twisted curve equation y^2 = x^3 + b'.
pub open spec fn g2_on_curve(s: Seq<u8>) -> bool {
    let x0 = g2_x_re(s);
    let x1 = g2_x_im(s);
    let y0 = g2_y_re(s);
    let y1 = g2_y_im(s);
    let x2r = fq2_mul_re(x0, x1, x0, x1);
    let x2i = fq2_mul_im(x0, x1, x0, x1);
    let x3r = fq2_mul_re(x2r, x2i, x0, x1);
    let x3i = fq2_mul_im(x2r, x2i, x0, x1);
    x0 < fq_order() && x1 < fq_order() && y0 < fq_order() && y1 < fq_order() && fq2_mul_re(
        y0,
        y1,
        y0,
        y1,
    ) == (x3r + g2_b_re()) % fq_order() && fq2_mul_im(y0, y1, y0, y1) == (x3i + g2_b_im())
        % fq_order()
}

/// Well-formed G2 encoding: the identity or a point on the twisted curve.
pub open spec fn g2_wf(s: Seq<u8>) -> bool {
    s.len() == 128 && (s == g2_zero_bytes() || g2_on_curve(s))
}

/// Affine bytes of the G1 generator (1, 2).
pub open spec fn g1_gen_bytes() -> Seq<u8> {
    be_bytes(1, 32) + be_bytes(2, 32)
}

/// Affine bytes of the G2 generator.
pub open spec fn g2_gen_bytes() -> Seq<u8> {
    be_bytes(10857046999023057135944570762232829481370756359578518086990519993285655852781nat, 32)
        + be_bytes(11559732032986387107991004021392285783925812861821192530917403151452391805634nat, 32)
        + be_bytes(8495653923123431417604973247489272438418190587263600148770280649306958101930nat, 32)
        + be_bytes(4082367875863433681332203403145435568316851327593401208105741076214120093531nat, 32)
}

/// The bytes of the G1 sum of the two encoded points.
pub uninterp spec fn g1_add_spec(p: Seq<u8>, q: Seq<u8>) -> Seq<u8>;

/// The bytes of the encoded G1 point multiplied by the scalar value.
pub uninterp spec fn g1_mul_spec(p: Seq<u8>, k: nat) -> Seq<u8>;

/// The bytes of the encoded G2 point multiplied by the scalar value.
pub uninterp spec fn g2_mul_spec(p: Seq<u8>, k: nat) -> Seq<u8>;

/// The value of the bilinear pairing on the encoded G1 and G2 points.
pub uninterp spec fn pairing_of(p: Seq<u8>, q: Seq<u8>) -> Seq<u8>;

#[verifier::external_type_specification]
#[verifier::external_body]
pub struct ExFr(substrate_bn::Fr);

#[verifier::external_type_specification]
#[verifier::external_body]
pub struct ExG1(substrate_bn::G1);

#[verifier::external_type_specification]
#[verifier::external_body]
pub struct ExG2(substrate_bn::G2);

/// Relies on substrate_bn::arith::U256::from_slice and Fr::new: reads a
/// canonical 32-byte big-endian scalar.
#[verifier::external_body]
pub(crate) fn fr_des(b: &Vec<u8>) -> substrate_bn::Fr
    requires
        fr_wf(b@),
{
    let u = substrate_bn::arith::U256::from_slice(&b[..]).unwrap();
    substrate_bn::Fr::new(u).unwrap()
}

/// Relies on substrate_bn::Fr::into_u256 and U256::to_big_endian: writes the
/// canonical 32-byte big-endian value of a scalar.
#[verifier::external_body]
pub(crate) fn fr_ser(v: substrate_bn::Fr) -> Vec<u8> {
    let mut out = vec![0u8; 32];
    v.into_u256().to_big_endian(&mut out).unwrap();
    out
}

/// Relies on substrate_bn::Fq::from_slice and G1::new: reads a point from 64
/// coordinate bytes; 64 zero bytes stand for the identity.
#[verifier::external_body]
pub(crate) fn g1_des(b: &Vec<u8>) -> substrate_bn::G1
    requires
        g1_wf(b@),
{
    let x = substrate_bn::Fq::from_slice(&b[0..32]).unwrap();
    let y = substrate_bn::Fq::from_slice(&b[32..64]).unwrap();
    if x.is_zero() && y.is_zero() {
        substrate_bn::G1::zero()
    } else {
        substrate_bn::G1::new(x, y, substrate_bn::Fq::one())
    }
}

/// Relies on substrate_bn::AffineG1::from_jacobian and Fq::to_big_endian:
/// writes the affine coordinate bytes; the identity becomes 64 zero bytes.
#[verifier::external_body]
pub(crate) fn g1_ser(p: substrate_bn::G1) -> Vec<u8> {
    let mut out = vec![0u8; 64];
    if let Some(a) = substrate_bn::AffineG1::from_jacobian(p) {
        a.x().to_big_endian(&mut out[0..32]).unwrap();
        a.y().to_big_endian(&mut out[32..64]).unwrap();
    }
    out
}

/// Relies on substrate_bn::Fq2::new and G2::new: reads a point from 128
/// coordinate bytes; 128 zero bytes stand for the identity.
#[verifier::external_body]
pub(crate) fn g2_des(b: &Vec<u8>) -> substrate_bn::G2
    requires
        g2_wf(b@),
{
    let x = substrate_bn::Fq2::new(
        substrate_bn::Fq::from_slice(&b[0..32]).unwrap(),
        substrate_bn::Fq::from_slice(&b[32..64]).unwrap(),
    );
    let y = substrate_bn::Fq2::new(
        substrate_bn::Fq::from_slice(&b[64..96]).unwrap(),
        substrate_bn::Fq::from_slice(&b[96..128]).unwrap(),
    );
    if x.is_zero() && y.is_zero() {
        substrate_bn::G2::zero()
    } else {
        substrate_bn::G2::new(x, y, substrate_bn::Fq2::one())
    }
}

/// Relies on substrate_bn::AffineG2::from_jacobian, Fq2::real/imaginary and
/// Fq::to_big_endian: writes the affine coordinate bytes; the identity
/// becomes 128 zero bytes.
#[verifier::external_body]
pub(crate) fn g2_ser(p: substrate_bn::G2) -> Vec<u8> {
    let mut out = vec![0u8; 128];
    if let Some(a) = substrate_bn::AffineG2::from_jacobian(p) {
        a.x().real().to_big_endian(&mut out[0..32]).unwrap();
        a.x().imaginary().to_big_endian(&mut out[32..64]).unwrap();
        a.y().real().to_big_endian(&mut out[64..96]).unwrap();
        a.y().imaginary().to_big_endian(&mut out[96..128]).unwrap();
    }
    out
}

/// Scalar addition modulo the Fr order.
/// Relies on substrate_bn Fr addition.
#[verifier::external_body]
pub(crate) fn fr_add(a: &FrBytes, b: &FrBytes) -> (r: FrBytes)
    requires
        fr_wf(a.b@),
        fr_wf(b.b@),
    ensures
        fr_wf(r.b@),
        be_val(r.b@) == (be_val(a.b@) + be_val(b.b@)) % fr_order(),
{
    FrBytes { b: fr_ser(fr_des(&a.b) + fr_des(&b.b)) }
}

/// Scalar subtraction modulo the Fr order.
/// Relies on substrate_bn Fr subtraction.
#[verifier::external_body]
pub(crate) fn fr_sub(a: &FrBytes, b: &FrBytes) -> (r: FrBytes)
    requires
        fr_wf(a.b@),
        fr_wf(b.b@),
    ensures
        fr_wf(r.b@),
        be_val(r.b@) == (be_val(a.b@) + fr_order() - be_val(b.b@)) % (fr_order() as int),
{
    FrBytes { b: fr_ser(fr_des(&a.b) - fr_des(&b.b)) }
}

/// Scalar multiplication modulo the Fr order.
/// Relies on substrate_bn Fr multiplication.
#[verifier::external_body]
pub(crate) fn fr_mul(a: &FrBytes, b: &FrBytes) -> (r: FrBytes)
    requires
        fr_wf(a.b@),
        fr_wf(b.b@),
    ensures
        fr_wf(r.b@),
        be_val(r.b@) == (be_val(a.b@) * be_val(b.b@)) % fr_order(),
{
    FrBytes { b: fr_ser(fr_des(&a.b) * fr_des(&b.b)) }
}

/// Scalar inverse modulo the Fr order; none exactly for the zero scalar.
/// Relies on substrate_bn::Fr::inverse.
#[verifier::external_body]
pub(crate) fn fr_inv(a: &FrBytes) -> (r: Option<FrBytes>)
    requires
        fr_wf(a.b@),
    ensures
        r.is_some() == (be_val(a.b@) != 0),
        match r {
            Some(v) => fr_wf(v.b@) && (be_val(v.b@) * be_val(a.b@)) % fr_order() == 1,
            None => true,
        },
{
    match fr_des(&a.b).inverse() {
        Some(v) => Some(FrBytes { b: fr_ser(v) }),
        None => None,
    }
}

/// The scalar holding a 64-bit value.
/// Relies on substrate_bn::Fr::new on a U256 read from a u64.
#[verifier::external_body]
pub fn fr_from_u64(inp: u64) -> (r: FrBytes)
    ensures
        fr_wf(r.b@),
        be_val(r.b@) == inp,
{
    let u = substrate_bn::arith::U256::from(inp);
    FrBytes { b: fr_ser(substrate_bn::Fr::new(u).unwrap()) }
}

/// G1 point addition.
/// Relies on substrate_bn G1 addition.
#[verifier::external_body]
pub(crate) fn g1_add(a: &G1Bytes, b: &G1Bytes) -> (r: G1Bytes)
    requires
        g1_wf(a.b@),
        g1_wf(b.b@),
    ensures
        g1_wf(r.b@),
        r.b@ == g1_add_spec(a.b@, b.b@),
{
    G1Bytes { b: g1_ser(g1_des(&a.b) + g1_des(&b.b)) }
}

/// G1 scalar multiplication.
/// Relies on substrate_bn G1 multiplication by an Fr scalar.
#[verifier::external_body]
pub(crate) fn g1_mul(p: &G1Bytes, k: &FrBytes) -> (r: G1Bytes)
    requires
        g1_wf(p.b@),
        fr_wf(k.b@),
    ensures
        g1_wf(r.b@),
        r.b@ == g1_mul_spec(p.b@, be_val(k.b@)),
{
    G1Bytes { b: g1_ser(g1_des(&p.b) * fr_des(&k.b)) }
}

/// The G1 generator (1, 2).
/// Relies on substrate_bn::G1::one.
#[verifier::external_body]
pub(crate) fn g1_generator() -> (r: G1Bytes)
    ensures
        g1_wf(r.b@),
        r.b@ == g1_gen_bytes(),
        r.b@ != g1_zero_bytes(),
{
    G1Bytes { b: g1_ser(substrate_bn::G1::one()) }
}

/// The G2 generator.
/// Relies on substrate_bn::G2::one.
#[verifier::external_body]
pub(crate) fn g2_generator() -> (r: G2Bytes)
    ensures
        g2_wf(r.b@),
        r.b@ == g2_gen_bytes(),
{
    G2Bytes { b: g2_ser(substrate_bn::G2::one()) }
}

/// The G2 generator multiplied by a scalar.
/// Relies on substrate_bn G2 multiplication by an Fr scalar, applied to
/// G2::one.
#[verifier::external_body]
pub(crate) fn g2_mul_gen(k: &FrBytes) -> (r: G2Bytes)
    requires
        fr_wf(k.b@),
    ensures
        g2_wf(r.b@),
        r.b@ == g2_mul_spec(g2_gen_bytes(), be_val(k.b@)),
{
    G2Bytes { b: g2_ser(substrate_bn::G2::one() * fr_des(&k.b)) }
}

/// Whether the pairing values of the two pairs are equal.
/// Relies on substrate_bn::pairing and equality of its Gt results.
#[verifier::external_body]
pub(crate) fn pairing_check(a: &G1Bytes, b: &G2Bytes, c: &G1Bytes, d: &G2Bytes) -> (r: bool)
    requires
        g1_wf(a.b@),
        g2_wf(b.b@),
        g1_wf(c.b@),
        g2_wf(d.b@),
    ensures
        r == (pairing_of(a.b@, b.b@) == pairing_of(c.b@, d.b@)),
{
    substrate_bn::pairing(g1_des(&a.b), g2_des(&b.b)) == substrate_bn::pairing(
        g1_des(&c.b),
        g2_des(&d.b),
    )
}

/// The identity of G1 in its 64-zero-byte encoding.
pub(crate) fn g1_zero() -> (r: G1Bytes)
    ensures
        r.b@ == g1_zero_bytes(),
        g1_wf(r.b@),
{
    let mut b: Vec<u8> = Vec::new();
    while b.len() < 64
        invariant
            b@.len() <= 64,
            b@ == zero_bytes(b@.len()),
        decreases 64 - b.len(),
    {
        b.push(0);
        proof {
            assert(b@ =~= zero_bytes(b@.len()));
        }
    }
    proof {
        assert(zero_bytes(b@.len()) =~= g1_zero_bytes());
    }
    G1Bytes { b }
}

/// The 64 affine coordinate bytes of a finite G1 point.
pub fn g1_to_bytes(p: &G1Bytes) -> (r: Vec<u8>)
    requires
        g1_wf(p.b@),
        p.b@ != g1_zero_bytes(),
    ensures
        r@ == p.b@,
{
    clone_bytes(&p.b)
}

impl Clone for FrBytes {
    fn clone(&self) -> (r: Self)
        ensures
            r.b@ == self.b@,
    {
        FrBytes { b: clone_bytes(&self.b) }
    }
}

impl Clone for G1Bytes {
    fn clone(&self) -> (r: Self)
        ensures
            r.b@ == self.b@,
    {
        G1Bytes { b: clone_bytes(&self.b) }
    }
}

impl Clone for G2Bytes {
    fn clone(&self) -> (r: Self)
        ensures
            r.b@ == self.b@,
    {
        G2Bytes { b: clone_bytes(&self.b) }
    }
}

impl PartialEq for FrBytes {
    fn eq(&self, other: &Self) -> (r: bool) {
        bytes_eq(&self.b, &other.b)
    }
}

impl vstd::std_specs::cmp::PartialEqSpecImpl for FrBytes {
    open spec fn obeys_eq_spec() -> bool {
        true
    }

    open spec fn eq_spec(&self, other: &Self) -> bool {
        self.b@ == other.b@
    }
}

impl PartialEq for G1Bytes {
    fn eq(&self, other: &Self) -> (r: bool) {
        bytes_eq(&self.b, &other.b)
    }
}

impl vstd::std_specs::cmp::PartialEqSpecImpl for G1Bytes {
    open spec fn obeys_eq_spec() -> bool {
        true
    }

    open spec fn eq_spec(&self, other: &Self) -> bool {
        self.b@ == other.b@
    }
}

impl PartialEq for G2Bytes {
    fn eq(&self, other: &Self) -> (r: bool) {
        bytes_eq(&self.b, &other.b)
    }
}

impl vstd::std_specs::cmp::PartialEqSpecImpl for G2Bytes {
    open spec fn obeys_eq_spec() -> bool {
        true
    }

    open spec fn eq_spec(&self, other: &Self) -> bool {
        self.b@ == other.b@
    }
}

} // verus!
