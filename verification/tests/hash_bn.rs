use dvrf_core::hashes::{hash_g1_to_bytes, hash_to_fr, hash_to_g1, rand_fr};
use sha3::Digest;

const TEST_STRING_1: &str = "test string 1";
const TEST_STRING_2: &str = "test string 2";

#[test]
fn test_rand_fr() {
    let r1 = rand_fr();
    let r2 = rand_fr();

    assert_ne!(r1, r2);
}

#[test]
fn test_hash_to_fr_same_input() {
    let inp = TEST_STRING_1.as_bytes();
    let out1 = hash_to_fr(inp);
    let out2 = hash_to_fr(inp);

    assert_eq!(out1, out2);
}

#[test]
fn test_hash_to_fr_diff_inputs() {
    let inp_1 = TEST_STRING_1.as_bytes();
    let inp_2 = TEST_STRING_2.as_bytes();
    let out1 = hash_to_fr(inp_1);
    let out2 = hash_to_fr(inp_2);

    assert_ne!(out1, out2);
}

#[test]
fn test_hash_to_g1_same_input() {
    let inp = TEST_STRING_1.as_bytes();
    let out1 = hash_to_g1(inp);
    let out2 = hash_to_g1(inp);

    assert_eq!(out1, out2);
}

#[test]
fn test_hash_to_g1_diff_inputs() {
    let inp_1 = TEST_STRING_1.as_bytes();
    let inp_2 = TEST_STRING_2.as_bytes();
    let out1 = hash_to_g1(inp_1);
    let out2 = hash_to_g1(inp_2);

    assert_ne!(out1, out2);
}

#[test]
fn test_hash_g1_to_bits_same_input() {
    let pre_inp = TEST_STRING_1.as_bytes();
    let inp = hash_to_g1(pre_inp);

    let out1 = hash_g1_to_bytes(&inp);
    let out2 = hash_g1_to_bytes(&inp);

    assert_eq!(out1, out2);
}

#[test]
fn test_hash_g1_to_bits_diff_inputs() {
    let pre_inp_1 = TEST_STRING_1.as_bytes();
    let pre_inp_2 = TEST_STRING_2.as_bytes();
    let inp_1 = hash_to_g1(pre_inp_1);
    let inp_2 = hash_to_g1(pre_inp_2);

    let out1 = hash_g1_to_bytes(&inp_1);
    let out2 = hash_g1_to_bytes(&inp_2);

    assert_ne!(out1, out2);
}

#[test]
fn hash_g1_to_bytes_is_keccak_of_coordinates() {
    let p = hash_to_g1(TEST_STRING_1.as_bytes());
    let out = hash_g1_to_bytes(&p);
    let expected = sha3::Keccak256::digest(&p.b).to_vec();

    assert_eq!(out, expected);
}
