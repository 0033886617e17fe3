use dvrf_core::bn::G1Bytes;
use dvrf_core::interpolation::interpolate;
use substrate_bn::{arith::U256, AffineG1, Fr, Group, G1};

fn fr_of(v: u64) -> Fr {
    Fr::new(U256::from(v)).expect("a u64 is below the Fr order")
}

fn g1_bytes_of(p: G1) -> G1Bytes {
    let a = AffineG1::from_jacobian(p).expect("finite point");
    let mut out = vec![0u8; 64];
    a.x().to_big_endian(&mut out[0..32]).unwrap();
    a.y().to_big_endian(&mut out[32..64]).unwrap();
    G1Bytes { b: out }
}

#[test]
fn lagrange_at_zero_sanity() {
    // Shares g1 * f(i) of f(X) = 7 + 3X + X^2 at ids 1..=5 interpolate to
    // g1 * 7.
    let mut shares = Vec::new();
    for i in 1..=5u64 {
        let f_i = 7 + 3 * i + i * i;
        shares.push((i as usize, g1_bytes_of(G1::one() * fr_of(f_i))));
    }
    let out = interpolate(shares).expect("distinct ids interpolate");
    let expected = g1_bytes_of(G1::one() * fr_of(7));
    assert_eq!(out, expected);
}

#[test]
fn lagrange_subset_independent() {
    // Any three of the shares of a degree-2 polynomial give the same value
    // at zero.
    let mut shares = Vec::new();
    for i in 1..=5u64 {
        let f_i = 7 + 3 * i + i * i;
        shares.push((i as usize, g1_bytes_of(G1::one() * fr_of(f_i))));
    }
    let first = interpolate(shares[0..3].to_vec()).unwrap();
    let last = interpolate(shares[2..5].to_vec()).unwrap();
    assert_eq!(first, last);
}

#[test]
fn interpolate_duplicate_ids_fails() {
    let p = g1_bytes_of(G1::one() * fr_of(11));
    let shares = vec![(1usize, p.clone()), (1usize, p)];
    assert!(interpolate(shares).is_none());
}

#[test]
fn interpolate_empty_is_identity() {
    let out = interpolate(Vec::new()).expect("no denominators to invert");
    assert_eq!(out.b, vec![0u8; 64]);
}

#[test]
fn interpolate_single_share_returns_it() {
    let p = g1_bytes_of(G1::one() * fr_of(11));
    let out = interpolate(vec![(4usize, p.clone())]).unwrap();
    assert_eq!(out, p);
}
