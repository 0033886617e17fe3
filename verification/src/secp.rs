//! Byte-level model of the secp256k1 curve used by the Goldberg VRF: scalars
//! as 32 canonical big-endian bytes, points as 33-byte SEC1 compressed
//! encodings (33 zero bytes for the identity), with the arithmetic of the
//! k256 crate behind trusted wrappers.
use vstd::prelude::*;

use crate::bytes::{be_bytes, be_val, bytes_eq, clone_bytes, zero_bytes};
use k256::elliptic_curve::group::GroupEncoding;
use k256::elliptic_curve::ops::MulByGenerator;
use k256::elliptic_curve::Field;
use k256::elliptic_curve::Group;
use k256::elliptic_curve::PrimeField;
use rand::rngs::OsRng;
use rand::SeedableRng;
use sha3::Digest;

verus! {

/// Order of the secp256k1 scalar field (a prime).
pub open spec fn secp_order() -> nat {
    115792089237316195423570985008687907852837564279074904382605163141518161494337nat
}

/// Order of the secp256k1 base field (a prime).
pub open spec fn secp_field() -> nat {
    115792089237316195423570985008687907853269984665640564039457584007908834671663nat
}

/// A secp256k1 scalar as 32 canonical big-endian bytes.
#[derive(Debug)]
pub struct SecpScalarBytes {
    pub b: Vec<u8>,
}

/// A secp256k1 point as a 33-byte compressed encoding (all zero for the
/// identity).
#[derive(Debug)]
pub struct SecpPointBytes {
    pub b: Vec<u8>,
}

/// Canonical scalar bytes: 32 bytes, value below the group order.
pub open spec fn sc_wf(s: Seq<u8>) -> bool {
    s.len() == 32 && be_val(s) < secp_order()
}

/// The identity encoding.
pub open spec fn secp_zero_bytes() -> Seq<u8> {
    zero_bytes(33)
}

/// A valid compressed encoding of a finite point: a parity tag, a canonical
/// x coordinate, and a square y^2 = x^3 + 7.
pub open spec fn secp_on_curve(s: Seq<u8>) -> bool {
    let x = be_val(s.subrange(1, 33));
    (s[0] == 2u8 || s[0] == 3u8) && x < secp_field() && exists|y: nat|
        y < secp_field() && #[trigger] ((y * y) % secp_field()) == (x * x * x + 7) % secp_field()
}

/// Well-formed point encoding: the identity or a finite point.
pub open spec fn secp_wf(s: Seq<u8>) -> bool {
    s.len() == 33 && (s == secp_zero_bytes() || secp_on_curve(s))
}

/// Compressed bytes of the secp256k1 generator.
pub open spec fn secp_gen_bytes() -> Seq<u8> {
    seq![2u8] + be_bytes(
        55066263022277343669578718895168534326250603453777594175500187360389116729240nat,
        32,
    )
}

/// The canonical bytes of the scalar drawn from the input bytes.
pub uninterp spec fn hash_to_scalar_spec(inp: Seq<u8>) -> Seq<u8>;

/// The compressed bytes of the point drawn from the input bytes.
pub uninterp spec fn hash_to_curve_spec(inp: Seq<u8>) -> Seq<u8>;

/// The compressed bytes of the sum of the two encoded points.
pub uninterp spec fn secp_add_spec(p: Seq<u8>, q: Seq<u8>) -> Seq<u8>;

/// The compressed bytes of the encoded point multiplied by the scalar value.
pub uninterp spec fn secp_mul_spec(p: Seq<u8>, k: nat) -> Seq<u8>;

#[verifier::external_type_specification]
#[verifier::external_body]
pub struct ExScalar(k256::Scalar);

#[verifier::external_type_specification]
#[verifier::external_body]
pub struct ExProjectivePoint(k256::ProjectivePoint);

/// Relies on k256::Scalar::from_repr: reads a canonical 32-byte scalar.
#[verifier::external_body]
pub(crate) fn sc_des(b: &Vec<u8>) -> k256::Scalar
    requires
        sc_wf(b@),
{
    let repr = *k256::FieldBytes::from_slice(&b[..]);
    k256::Scalar::from_repr(repr).unwrap()
}

/// Relies on k256::Scalar::to_bytes: writes the canonical 32-byte value.
#[verifier::external_body]
pub(crate) fn sc_ser(v: k256::Scalar) -> Vec<u8> {
    v.to_bytes().to_vec()
}

/// Relies on k256::ProjectivePoint::from_bytes: reads a 33-byte compressed
/// encoding; 33 zero bytes stand for the identity.
#[verifier::external_body]
pub(crate) fn secp_des(b: &Vec<u8>) -> k256::ProjectivePoint
    requires
        secp_wf(b@),
{
    let repr = *k256::CompressedPoint::from_slice(&b[..]);
    Option::<k256::ProjectivePoint>::from(k256::ProjectivePoint::from_bytes(&repr)).unwrap()
}

/// Relies on k256::ProjectivePoint::to_bytes: writes the 33-byte compressed
/// encoding; the identity becomes 33 zero bytes.
#[verifier::external_body]
pub(crate) fn secp_ser(p: k256::ProjectivePoint) -> Vec<u8> {
    p.to_bytes().to_vec()
}

/// A fresh uniform scalar.
/// Relies on k256::Scalar::random over rand::rngs::OsRng.
#[verifier::external_body]
pub fn rand_scalar() -> (r: SecpScalarBytes)
    ensures
        sc_wf(r.b@),
{
    SecpScalarBytes { b: sc_ser(k256::Scalar::random(&mut OsRng)) }
}

/// The scalar derived deterministically from the input bytes.
/// Relies on sha3::Keccak256, rand::rngs::StdRng seeded with the digest, and
/// k256::Scalar::random: the result depends on the input bytes alone.
#[verifier::external_body]
pub fn hash_to_scalar(inp: &[u8]) -> (r: SecpScalarBytes)
    ensures
        r.b@ == hash_to_scalar_spec(inp@),
        sc_wf(r.b@),
{
    let seed: [u8; 32] = sha3::Keccak256::digest(inp).into();
    let rng = rand::rngs::StdRng::from_seed(seed);
    SecpScalarBytes { b: sc_ser(k256::Scalar::random(rng)) }
}

/// The point derived deterministically from the input bytes.
/// Relies on sha3::Keccak256, rand::rngs::StdRng seeded with the digest, and
/// k256::ProjectivePoint::random: the result depends on the input bytes
/// alone.
#[verifier::external_body]
pub fn hash_to_curve(inp: &[u8]) -> (r: SecpPointBytes)
    ensures
        r.b@ == hash_to_curve_spec(inp@),
        secp_wf(r.b@),
{
    let seed: [u8; 32] = sha3::Keccak256::digest(inp).into();
    let rng = rand::rngs::StdRng::from_seed(seed);
    SecpPointBytes { b: secp_ser(k256::ProjectivePoint::random(rng)) }
}

/// Scalar subtraction modulo the group order.
/// Relies on k256 Scalar subtraction.
#[verifier::external_body]
pub(crate) fn sc_sub(a: &SecpScalarBytes, b: &SecpScalarBytes) -> (r: SecpScalarBytes)
    requires
        sc_wf(a.b@),
        sc_wf(b.b@),
    ensures
        sc_wf(r.b@),
        be_val(r.b@) == (be_val(a.b@) + secp_order() - be_val(b.b@)) % (secp_order() as int),
{
    SecpScalarBytes { b: sc_ser(sc_des(&a.b) - sc_des(&b.b)) }
}

/// Scalar multiplication modulo the group order.
/// Relies on k256 Scalar multiplication.
#[verifier::external_body]
pub(crate) fn sc_mul(a: &SecpScalarBytes, b: &SecpScalarBytes) -> (r: SecpScalarBytes)
    requires
        sc_wf(a.b@),
        sc_wf(b.b@),
    ensures
        sc_wf(r.b@),
        be_val(r.b@) == (be_val(a.b@) * be_val(b.b@)) % secp_order(),
{
    SecpScalarBytes { b: sc_ser(sc_des(&a.b) * sc_des(&b.b)) }
}

/// Point addition.
/// Relies on k256 ProjectivePoint addition.
#[verifier::external_body]
pub(crate) fn secp_add(p: &SecpPointBytes, q: &SecpPointBytes) -> (r: SecpPointBytes)
    requires
        secp_wf(p.b@),
        secp_wf(q.b@),
    ensures
        secp_wf(r.b@),
        r.b@ == secp_add_spec(p.b@, q.b@),
{
    SecpPointBytes { b: secp_ser(secp_des(&p.b) + secp_des(&q.b)) }
}

/// Point multiplication by a scalar.
/// Relies on k256 ProjectivePoint multiplication by a Scalar.
#[verifier::external_body]
pub(crate) fn secp_mul(p: &SecpPointBytes, k: &SecpScalarBytes) -> (r: SecpPointBytes)
    requires
        secp_wf(p.b@),
        sc_wf(k.b@),
    ensures
        secp_wf(r.b@),
        r.b@ == secp_mul_spec(p.b@, be_val(k.b@)),
{
    SecpPointBytes { b: secp_ser(secp_des(&p.b) * sc_des(&k.b)) }
}

/// The generator multiplied by a scalar.
/// Relies on k256::ProjectivePoint::mul_by_generator, which multiplies the
/// SEC1 generator by the scalar.
#[verifier::external_body]
pub(crate) fn secp_mul_gen(k: &SecpScalarBytes) -> (r: SecpPointBytes)
    requires
        sc_wf(k.b@),
    ensures
        secp_wf(r.b@),
        r.b@ == secp_mul_spec(secp_gen_bytes(), be_val(k.b@)),
{
    SecpPointBytes { b: secp_ser(k256::ProjectivePoint::mul_by_generator(&sc_des(&k.b))) }
}

/// The secp256k1 generator.
/// Relies on k256::ProjectivePoint::GENERATOR.
#[verifier::external_body]
pub(crate) fn secp_generator() -> (r: SecpPointBytes)
    ensures
        secp_wf(r.b@),
        r.b@ == secp_gen_bytes(),
        r.b@ != secp_zero_bytes(),
{
    SecpPointBytes { b: secp_ser(k256::ProjectivePoint::GENERATOR) }
}

impl Clone for SecpScalarBytes {
    fn clone(&self) -> (r: Self)
        ensures
            r.b@ == self.b@,
    {
        SecpScalarBytes { b: clone_bytes(&self.b) }
    }
}

impl Clone for SecpPointBytes {
    fn clone(&self) -> (r: Self)
        ensures
            r.b@ == self.b@,
    {
        SecpPointBytes { b: clone_bytes(&self.b) }
    }
}

impl PartialEq for SecpScalarBytes {
    fn eq(&self, other: &Self) -> (r: bool) {
        bytes_eq(&self.b, &other.b)
    }
}

impl vstd::std_specs::cmp::PartialEqSpecImpl for SecpScalarBytes {
    open spec fn obeys_eq_spec() -> bool {
        true
    }

    open spec fn eq_spec(&self, other: &Self) -> bool {
        self.b@ == other.b@
    }
}

impl PartialEq for SecpPointBytes {
    fn eq(&self, other: &Self) -> (r: bool) {
        bytes_eq(&self.b, &other.b)
    }
}

impl vstd::std_specs::cmp::PartialEqSpecImpl for SecpPointBytes {
    open spec fn obeys_eq_spec() -> bool {
        true
    }

    open spec fn eq_spec(&self, other: &Self) -> bool {
        self.b@ == other.b@
    }
}

} // verus!
