use dvrf_core::bn::{g1_to_bytes, FrBytes, G1Bytes};
use dvrf_core::hashes::hash_to_g1;
use dvrf_core::zkp_glow::ZkpGlow;
use substrate_bn::{AffineG1, Fq, Fr, G1};
use dvrf_core::dvrf::{DvrfConfig, DvrfError, DvrfPubParam, TrustedKeygenOutput};
use dvrf_core::glow_dvrf::{GlowDvrf, GlowDvrfHashless, PartialEval};
use rand::seq::SliceRandom;

const TEST_STRING_1: &str = "test string 1";
const TEST_STRING_2: &str = "test string 2";

fn vk_of(pp: &DvrfPubParam, id: usize) -> G1Bytes {
    pp.vk_from_id(id)
        .expect("(id, vk) should appear exactly once")
        .expect("(id, vk) should appear exactly once")
}

fn hashless_pevals(keys: &TrustedKeygenOutput, count: usize, msg: &str) -> Vec<(usize, PartialEval)> {
    let mut pevals = Vec::new();
    for i in 0..count {
        let (id, sk_i) = &keys.sks[i];
        let vk_i = vk_of(&keys.pp, *id);
        pevals.push((*id, GlowDvrfHashless::part_eval(msg.as_bytes(), sk_i, &vk_i)));
    }
    pevals
}

#[test]
fn test_dvrf_partial_evals_glow_hashless() {
    let config = DvrfConfig::default();
    let keys = GlowDvrfHashless::keygen(&config);
    assert_eq!(config.n, keys.sks.len());

    for i in 0..config.n {
        let (id, sk_i) = &keys.sks[i];
        let vk_i = vk_of(&keys.pp, *id);
        let peval = GlowDvrfHashless::part_eval(TEST_STRING_1.as_bytes(), sk_i, &vk_i);
        assert!(GlowDvrfHashless::part_ver(TEST_STRING_1.as_bytes(), &vk_i, &peval));
        assert!(!GlowDvrfHashless::part_ver(TEST_STRING_2.as_bytes(), &vk_i, &peval));
        let next_id = keys.sks[(i + 1) % config.n].0;
        let next_vk = vk_of(&keys.pp, next_id);
        assert!(!GlowDvrfHashless::part_ver(TEST_STRING_1.as_bytes(), &next_vk, &peval));
    }
}

#[test]
fn test_dvrf_aggregation_success_glow_hashless() {
    let config = DvrfConfig::default();
    let keys = GlowDvrfHashless::keygen(&config);
    assert_eq!(config.n, keys.sks.len());

    let mut pevals = hashless_pevals(&keys, config.n, TEST_STRING_1);

    let agg_sig = GlowDvrfHashless::aggregate_with_config(&config, pevals.clone())
        .expect("aggregation should not throw error when threshold nodes available");
    assert!(GlowDvrfHashless::out_ver_pk(TEST_STRING_1.as_bytes(), &keys.pp.pk, &agg_sig));
    assert!(GlowDvrfHashless::out_ver_pp(TEST_STRING_1.as_bytes(), &keys.pp, &agg_sig));

    pevals.shuffle(&mut rand::thread_rng());
    pevals.truncate(config.t);

    let agg_sig_subcommittee = GlowDvrfHashless::aggregate_with_config(&config, pevals)
        .expect("aggregation should not throw error when threshold nodes available");
    assert!(GlowDvrfHashless::out_ver_pk(
        TEST_STRING_1.as_bytes(),
        &keys.pp.pk,
        &agg_sig_subcommittee
    ));
    assert!(GlowDvrfHashless::out_ver_pp(
        TEST_STRING_1.as_bytes(),
        &keys.pp,
        &agg_sig_subcommittee
    ));
}

#[test]
fn test_dvrf_aggregation_failure_insufficient_pevals_glow_hashless() {
    let config = DvrfConfig::default();
    let keys = GlowDvrfHashless::keygen(&config);
    assert_eq!(config.n, keys.sks.len());

    let pevals = hashless_pevals(&keys, config.t - 1, TEST_STRING_1);
    assert!(GlowDvrfHashless::aggregate_with_config(&config, pevals).is_err());
}

#[test]
fn test_dvrf_aggregation_failure_invalid_pevals_glow_hashless() {
    let config = DvrfConfig::default();
    let keys = GlowDvrfHashless::keygen(&config);
    assert_eq!(config.n, keys.sks.len());

    let mut pevals = hashless_pevals(&keys, config.t - 1, TEST_STRING_1);
    let (bad_id, bad_sk) = &keys.sks[config.t - 1];
    let bad_vk = vk_of(&keys.pp, *bad_id);
    pevals.push((*bad_id, GlowDvrfHashless::part_eval(TEST_STRING_2.as_bytes(), bad_sk, &bad_vk)));

    let agg_sig = GlowDvrfHashless::aggregate_with_config(&config, pevals)
        .expect("aggregation should not throw error when threshold nodes available");
    assert!(!GlowDvrfHashless::out_ver_pk(TEST_STRING_1.as_bytes(), &keys.pp.pk, &agg_sig));
    assert!(!GlowDvrfHashless::out_ver_pp(TEST_STRING_1.as_bytes(), &keys.pp, &agg_sig));
}

#[test]
fn test_dvrf_partial_evals_glow() {
    let config = DvrfConfig::default();
    let keys = GlowDvrf::keygen(&config);
    assert_eq!(config.n, keys.sks.len());

    for i in 0..config.n {
        let (id, sk_i) = &keys.sks[i];
        let vk_i = vk_of(&keys.pp, *id);
        let peval = GlowDvrf::part_eval(TEST_STRING_1.as_bytes(), sk_i, &vk_i);
        assert!(GlowDvrf::part_ver(TEST_STRING_1.as_bytes(), &vk_i, &peval));
        assert!(!GlowDvrf::part_ver(TEST_STRING_2.as_bytes(), &vk_i, &peval));
        let next_id = keys.sks[(i + 1) % config.n].0;
        let next_vk = vk_of(&keys.pp, next_id);
        assert!(!GlowDvrf::part_ver(TEST_STRING_1.as_bytes(), &next_vk, &peval));
    }
}

#[test]
fn test_dvrf_aggregation_success_glow() {
    let config = DvrfConfig::default();
    let keys = GlowDvrf::keygen(&config);
    assert_eq!(config.n, keys.sks.len());

    let mut pevals = Vec::new();
    for i in 0..config.n {
        let (id, sk_i) = &keys.sks[i];
        let vk_i = vk_of(&keys.pp, *id);
        pevals.push((*id, GlowDvrf::part_eval(TEST_STRING_1.as_bytes(), sk_i, &vk_i)));
    }

    let agg_sig = GlowDvrf::aggregate_with_config(&config, pevals.clone())
        .expect("aggregation should not throw error when threshold nodes available");
    assert!(GlowDvrf::out_ver_pk(TEST_STRING_1.as_bytes(), &keys.pp.pk, &agg_sig));
    assert!(GlowDvrf::out_ver_pp(TEST_STRING_1.as_bytes(), &keys.pp, &agg_sig));

    pevals.shuffle(&mut rand::thread_rng());
    pevals.truncate(config.t);

    let agg_sig_subcommittee = GlowDvrf::aggregate_with_config(&config, pevals)
        .expect("aggregation should not throw error when threshold nodes available");
    assert!(GlowDvrf::out_ver_pk(
        TEST_STRING_1.as_bytes(),
        &keys.pp.pk,
        &agg_sig_subcommittee
    ));
    assert!(GlowDvrf::out_ver_pp(TEST_STRING_1.as_bytes(), &keys.pp, &agg_sig_subcommittee));
}

#[test]
fn test_dvrf_aggregation_failure_insufficient_pevals_glow() {
    let config = DvrfConfig::default();
    let keys = GlowDvrf::keygen(&config);
    assert_eq!(config.n, keys.sks.len());

    let mut pevals = Vec::new();
    for i in 0..config.t - 1 {
        let (id, sk_i) = &keys.sks[i];
        let vk_i = vk_of(&keys.pp, *id);
        pevals.push((*id, GlowDvrf::part_eval(TEST_STRING_1.as_bytes(), sk_i, &vk_i)));
    }
    assert!(GlowDvrf::aggregate_with_config(&config, pevals).is_err());
}

#[test]
fn test_dvrf_aggregation_failure_invalid_pevals_glow() {
    let config = DvrfConfig::default();
    let keys = GlowDvrf::keygen(&config);
    assert_eq!(config.n, keys.sks.len());

    let mut pevals = Vec::new();
    for i in 0..config.t - 1 {
        let (id, sk_i) = &keys.sks[i];
        let vk_i = vk_of(&keys.pp, *id);
        pevals.push((*id, GlowDvrf::part_eval(TEST_STRING_1.as_bytes(), sk_i, &vk_i)));
    }
    let (bad_id, bad_sk) = &keys.sks[config.t - 1];
    let bad_vk = vk_of(&keys.pp, *bad_id);
    pevals.push((*bad_id, GlowDvrf::part_eval(TEST_STRING_2.as_bytes(), bad_sk, &bad_vk)));

    let agg_sig = GlowDvrf::aggregate_with_config(&config, pevals)
        .expect("aggregation should not throw error when threshold nodes available");
    assert!(!GlowDvrf::out_ver_pk(TEST_STRING_1.as_bytes(), &keys.pp.pk, &agg_sig));
    assert!(!GlowDvrf::out_ver_pp(TEST_STRING_1.as_bytes(), &keys.pp, &agg_sig));
}

#[test]
fn glow_consistency_with_committee_secret() {
    let config = DvrfConfig::default();
    let keys = GlowDvrfHashless::keygen(&config);
    let pevals = hashless_pevals(&keys, config.t, TEST_STRING_1);
    let agg = GlowDvrfHashless::aggregate_with_config(&config, pevals).unwrap();

    // The reconstructed output equals H1(m) multiplied by the committee
    // secret, computed here directly over the curve library.
    let csk = keys.committee_sk.as_ref().expect("dealer returns the committee secret");
    let csk_fr = Fr::new(substrate_bn::arith::U256::from_slice(&csk.b).unwrap()).unwrap();
    let h = hash_to_g1(TEST_STRING_1.as_bytes());
    let hx = Fq::from_slice(&h.b[0..32]).unwrap();
    let hy = Fq::from_slice(&h.b[32..64]).unwrap();
    let hp = G1::new(hx, hy, Fq::one());
    let expected = AffineG1::from_jacobian(hp * csk_fr).unwrap();
    let mut exp_bytes = vec![0u8; 64];
    expected.x().to_big_endian(&mut exp_bytes[0..32]).unwrap();
    expected.y().to_big_endian(&mut exp_bytes[32..64]).unwrap();

    assert_eq!(g1_to_bytes(&agg), exp_bytes);
}

#[test]
fn aggregate_duplicate_ids_gives_duplicate_identifier() {
    let config = DvrfConfig::default();
    let keys = GlowDvrfHashless::keygen(&config);
    let (id, sk) = &keys.sks[0];
    let vk = vk_of(&keys.pp, *id);
    let peval = GlowDvrfHashless::part_eval(TEST_STRING_1.as_bytes(), sk, &vk);
    let pevals = vec![(*id, peval.clone()), (*id, peval)];
    assert_eq!(
        GlowDvrfHashless::aggregate(2, pevals),
        Err(DvrfError::DuplicateIdentifier)
    );
}

#[test]
fn hashed_aggregate_of_identity_share_gives_invalid_point() {
    let zero_scalar = FrBytes { b: vec![0u8; 32] };
    let peval = PartialEval {
        psig: G1Bytes { b: vec![0u8; 64] },
        zkp_glow: ZkpGlow { c: zero_scalar.clone(), s: zero_scalar },
    };
    assert_eq!(
        GlowDvrf::aggregate(1, vec![(1, peval)]),
        Err(DvrfError::InvalidPoint)
    );
}

#[test]
fn aggregate_insufficient_error_kind() {
    let config = DvrfConfig::default();
    let keys = GlowDvrfHashless::keygen(&config);
    let pevals = hashless_pevals(&keys, 1, TEST_STRING_1);
    assert_eq!(
        GlowDvrfHashless::aggregate_with_config(&config, pevals),
        Err(DvrfError::InsufficientPartials)
    );
}

#[test]
fn glow_any_five_of_nine_match_full_aggregate() {
    let config = DvrfConfig::default();
    let keys = GlowDvrfHashless::keygen(&config);

    let mut pevals = hashless_pevals(&keys, config.n, TEST_STRING_1);
    let full = GlowDvrfHashless::aggregate_with_config(&config, pevals.clone()).unwrap();
    assert!(GlowDvrfHashless::out_ver_pk(TEST_STRING_1.as_bytes(), &keys.pp.pk, &full));

    pevals.shuffle(&mut rand::thread_rng());
    pevals.truncate(config.t);
    let subset = GlowDvrfHashless::aggregate_with_config(&config, pevals).unwrap();
    assert_eq!(full, subset);
}
