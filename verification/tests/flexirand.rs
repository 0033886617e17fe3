use dvrf_core::bn::{fr_from_u64, G1Bytes};
use dvrf_core::dvrf::{DvrfConfig, DvrfError};
use dvrf_core::flexirand::FlexiRandGlow;
use dvrf_core::random_input;

#[test]
fn flexirand_roundtrip() {
    let config = DvrfConfig::default();
    let keys = FlexiRandGlow::keygen(&config);
    let m = random_input();

    let (bf, blinded) = FlexiRandGlow::blind_input(&m);
    assert!(FlexiRandGlow::inp_ver(&m, &blinded));

    let mut pevals = Vec::new();
    for i in 0..config.t {
        let (id, sk_i) = &keys.sks[i];
        let vk_i = keys
            .pp
            .vk_from_id(*id)
            .expect("(id, vk) should appear exactly once")
            .expect("(id, vk) should appear exactly once");
        let peval = FlexiRandGlow::part_eval(&blinded, sk_i, &vk_i);
        assert!(FlexiRandGlow::part_ver(&blinded, &vk_i, &peval));
        pevals.push((*id, peval));
    }

    let blinded_out = FlexiRandGlow::aggregate_with_config(&config, pevals)
        .expect("aggregation should not throw error when threshold nodes available");
    assert!(FlexiRandGlow::prever_with_pk(&blinded, &keys.pp.pk, &blinded_out));
    assert!(FlexiRandGlow::prever_with_pp(&blinded, &keys.pp, &blinded_out));

    let out = FlexiRandGlow::unblind_output(&bf, &blinded_out)
        .expect("unblinding a finite aggregate succeeds");
    assert!(FlexiRandGlow::verify_out_with_pk(&m, &out, &keys.pp.pk));
    assert!(FlexiRandGlow::verify_out_with_pp(&m, &out, &keys.pp));
}

#[test]
fn flexirand_wrong_message_fails() {
    let config = DvrfConfig::default();
    let keys = FlexiRandGlow::keygen(&config);
    let m = random_input();
    let other = random_input();

    let (bf, blinded) = FlexiRandGlow::blind_input(&m);
    let mut pevals = Vec::new();
    for i in 0..config.t {
        let (id, sk_i) = &keys.sks[i];
        let vk_i = keys.pp.vk_from_id(*id).unwrap().unwrap();
        pevals.push((*id, FlexiRandGlow::part_eval(&blinded, sk_i, &vk_i)));
    }
    let blinded_out = FlexiRandGlow::aggregate_with_config(&config, pevals).unwrap();
    let out = FlexiRandGlow::unblind_output(&bf, &blinded_out).unwrap();

    assert!(!FlexiRandGlow::verify_out_with_pk(&other, &out, &keys.pp.pk));
    assert!(!FlexiRandGlow::inp_ver(&other, &blinded));
}

#[test]
fn flexirand_unblind_identity_gives_invalid_point() {
    let bf = fr_from_u64(3);
    let identity = G1Bytes { b: vec![0u8; 64] };
    assert_eq!(
        FlexiRandGlow::unblind_output(&bf, &identity),
        Err(DvrfError::InvalidPoint)
    );
}

#[test]
fn flexirand_precomputed_inverse_matches_unblind() {
    let config = DvrfConfig::default();
    let keys = FlexiRandGlow::keygen(&config);
    let m = random_input();

    let (bf, blinded) = FlexiRandGlow::blind_input(&m);
    let mut pevals = Vec::new();
    for i in 0..config.t {
        let (id, sk_i) = &keys.sks[i];
        let vk_i = keys.pp.vk_from_id(*id).unwrap().unwrap();
        pevals.push((*id, FlexiRandGlow::part_eval(&blinded, sk_i, &vk_i)));
    }
    let blinded_out = FlexiRandGlow::aggregate_with_config(&config, pevals).unwrap();

    let bf_fr =
        substrate_bn::Fr::new(substrate_bn::arith::U256::from_slice(&bf.b).unwrap()).unwrap();
    let mut inv_bytes = vec![0u8; 32];
    bf_fr.inverse().unwrap().into_u256().to_big_endian(&mut inv_bytes).unwrap();
    let bf_inv = dvrf_core::bn::FrBytes { b: inv_bytes };

    let out_a = FlexiRandGlow::unblind_output(&bf, &blinded_out).unwrap();
    let out_b = FlexiRandGlow::unblind_output_precomputed_inv(&bf_inv, &blinded_out).unwrap();
    assert_eq!(out_a.0, out_b.0);
    assert_eq!(out_a.1, out_b.1);
}

#[test]
fn blinding_factor_is_nonzero() {
    let bf = FlexiRandGlow::blinding_factor();
    assert_eq!(bf.b.len(), 32);
    assert!(bf.b.iter().any(|&x| x != 0));
}
