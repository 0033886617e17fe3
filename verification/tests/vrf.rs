use dvrf_core::bls_vrf::BlsVrfHashless;
use dvrf_core::goldberg_vrf::GoldbergVrf;
use sha3::Digest;

const TEST_STRING_1: &str = "test string 1";
const TEST_STRING_2: &str = "test string 2";

#[test]
fn bls_vrf_bls_vrf_eval_ver() {
    let (sk, pk) = BlsVrfHashless::keygen();
    let inp = TEST_STRING_1.as_bytes();
    let out = BlsVrfHashless::eval(inp, &sk, &pk);
    assert!(BlsVrfHashless::ver(inp, &pk, &out));
}

#[test]
fn bls_vrf_bls_vrf_wrong_input_fails() {
    let (sk, pk) = BlsVrfHashless::keygen();
    let inp_1 = TEST_STRING_1.as_bytes();
    let inp_2 = TEST_STRING_2.as_bytes();
    let out = BlsVrfHashless::eval(inp_1, &sk, &pk);
    assert!(!BlsVrfHashless::ver(inp_2, &pk, &out));
}

#[test]
fn bls_vrf_bls_vrf_wrong_pk_fails() {
    let (sk_1, pk_1) = BlsVrfHashless::keygen();
    let (_, pk_2) = BlsVrfHashless::keygen();
    let inp = TEST_STRING_1.as_bytes();
    let out = BlsVrfHashless::eval(inp, &sk_1, &pk_1);
    assert!(!BlsVrfHashless::ver(inp, &pk_2, &out));
}

#[test]
fn goldberg_vrf_bls_vrf_eval_ver() {
    let (sk, pk) = GoldbergVrf::keygen();
    let inp = TEST_STRING_1.as_bytes();
    let out = GoldbergVrf::eval(inp, &sk, &pk);
    assert!(GoldbergVrf::ver(inp, &pk, &out));
}

#[test]
fn goldberg_vrf_bls_vrf_wrong_input_fails() {
    let (sk, pk) = GoldbergVrf::keygen();
    let inp_1 = TEST_STRING_1.as_bytes();
    let inp_2 = TEST_STRING_2.as_bytes();
    let out = GoldbergVrf::eval(inp_1, &sk, &pk);
    assert!(!GoldbergVrf::ver(inp_2, &pk, &out));
}

#[test]
fn goldberg_vrf_bls_vrf_wrong_pk_fails() {
    let (sk_1, pk_1) = GoldbergVrf::keygen();
    let (_, pk_2) = GoldbergVrf::keygen();
    let inp = TEST_STRING_1.as_bytes();
    let out = GoldbergVrf::eval(inp, &sk_1, &pk_1);
    assert!(!GoldbergVrf::ver(inp, &pk_2, &out));
}

#[test]
fn goldberg_vrf_beta_is_gamma_encoding() {
    let (sk, pk) = GoldbergVrf::keygen();
    let out = GoldbergVrf::eval(TEST_STRING_1.as_bytes(), &sk, &pk);
    assert_eq!(out.beta, out.gamma.b);
    assert_eq!(out.beta.len(), 33);
}

#[test]
fn goldberg_vrf_tampered_beta_fails() {
    let (sk, pk) = GoldbergVrf::keygen();
    let inp = TEST_STRING_1.as_bytes();
    let mut out = GoldbergVrf::eval(inp, &sk, &pk);
    out.beta[0] ^= 1;
    assert!(!GoldbergVrf::ver(inp, &pk, &out));
}

#[test]
fn instarand_server_input_is_concatenation() {
    let (_, pk) = GoldbergVrf::keygen();
    let u = [7u8, 8, 9];
    let r = GoldbergVrf::generate_server_input(&u, &pk);
    let mut expected = u.to_vec();
    expected.extend_from_slice(&pk.b);
    assert_eq!(r, expected);
}

#[test]
fn instarand_hash_output_is_keccak_of_prefix_and_beta() {
    let (sk, pk) = GoldbergVrf::keygen();
    let out = GoldbergVrf::eval(TEST_STRING_1.as_bytes(), &sk, &pk);
    let prefix = [1u8, 2, 3, 4];
    let r = GoldbergVrf::hash_output(&prefix, &out);
    let mut inp = prefix.to_vec();
    inp.extend_from_slice(&out.beta);
    let expected = sha3::Keccak256::digest(&inp).to_vec();
    assert_eq!(r, expected);
}
