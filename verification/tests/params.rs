use dvrf_core::bn::{fr_from_u64, G1Bytes, G2Bytes};
use dvrf_core::dvrf::{DvrfConfig, DvrfError, DvrfPubParam};
use dvrf_core::{random_input, DEFAULT_NUM_NODES, DEFAULT_THRESHOLD};

fn point(tag: u8) -> G1Bytes {
    let mut b = vec![0u8; 64];
    b[63] = tag;
    G1Bytes { b }
}

fn params(vks: Vec<(usize, G1Bytes)>) -> DvrfPubParam {
    DvrfPubParam {
        config: DvrfConfig { t: 2, n: vks.len() },
        vks,
        pk: G2Bytes { b: vec![0u8; 128] },
    }
}

#[test]
fn config_validate_cases() {
    assert!(DvrfConfig { t: 1, n: 1 }.validate());
    assert!(DvrfConfig { t: 5, n: 9 }.validate());
    assert!(DvrfConfig { t: 256, n: 256 }.validate());
    assert!(!DvrfConfig { t: 0, n: 9 }.validate());
    assert!(!DvrfConfig { t: 10, n: 9 }.validate());
    assert!(!DvrfConfig { t: 1, n: 257 }.validate());
}

#[test]
fn config_default_is_five_of_nine() {
    let config = DvrfConfig::default();
    assert_eq!(config.t, DEFAULT_THRESHOLD);
    assert_eq!(config.n, DEFAULT_NUM_NODES);
    assert_eq!(config.t, 5);
    assert_eq!(config.n, 9);
}

#[test]
fn pub_param_accessors() {
    let pp = params(vec![(1, point(1)), (2, point(2))]);
    assert_eq!(pp.threshold(), 2);
    assert_eq!(pp.committee_size(), 2);
}

#[test]
fn vk_from_id_cases() {
    let pp = params(vec![(1, point(1)), (2, point(2))]);
    assert_eq!(pp.vk_from_id(1).unwrap().unwrap(), point(1));
    assert_eq!(pp.vk_from_id(2).unwrap().unwrap(), point(2));
    assert!(pp.vk_from_id(3).unwrap().is_none());

    let dup = params(vec![(1, point(1)), (1, point(2))]);
    assert_eq!(dup.vk_from_id(1), Err(DvrfError::DuplicateIdentifier));
}

#[test]
fn contains_id_cases() {
    let pp = params(vec![(1, point(1)), (2, point(2))]);
    assert_eq!(pp.contains_id(1), Ok(true));
    assert_eq!(pp.contains_id(3), Ok(false));

    let dup = params(vec![(2, point(1)), (2, point(2))]);
    assert_eq!(dup.contains_id(2), Err(DvrfError::DuplicateIdentifier));
}

#[test]
fn contains_vk_cases() {
    let pp = params(vec![(1, point(1)), (2, point(2))]);
    assert_eq!(pp.contains_vk(&point(1)), Ok(true));
    assert_eq!(pp.contains_vk(&point(9)), Ok(false));

    let dup = params(vec![(1, point(7)), (2, point(7))]);
    assert_eq!(dup.contains_vk(&point(7)), Err(DvrfError::DuplicateIdentifier));
}

#[test]
fn fr_from_u64_writes_big_endian_value() {
    let five = fr_from_u64(5);
    let mut expected = vec![0u8; 32];
    expected[31] = 5;
    assert_eq!(five.b, expected);

    let big = fr_from_u64(0x0102030405060708);
    let mut expected_big = vec![0u8; 32];
    expected_big[24..32].copy_from_slice(&[1, 2, 3, 4, 5, 6, 7, 8]);
    assert_eq!(big.b, expected_big);
}

#[test]
fn random_input_draws_fresh_bytes() {
    let a = random_input();
    let b = random_input();
    assert_eq!(a.len(), 32);
    assert_ne!(a, b);
}
