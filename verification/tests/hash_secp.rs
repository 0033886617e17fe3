use dvrf_core::secp::{hash_to_curve, hash_to_scalar, rand_scalar};

const TEST_STRING_1: &str = "test string 1";
const TEST_STRING_2: &str = "test string 2";

#[test]
fn test_rand_scalar() {
    let r1 = rand_scalar();
    let r2 = rand_scalar();

    assert_ne!(r1, r2);
}

#[test]
fn test_hash_to_scalar_same_input() {
    let inp = TEST_STRING_1.as_bytes();
    let out1 = hash_to_scalar(inp);
    let out2 = hash_to_scalar(inp);

    assert_eq!(out1, out2);
}

#[test]
fn test_hash_to_scalar_diff_inputs() {
    let inp_1 = TEST_STRING_1.as_bytes();
    let inp_2 = TEST_STRING_2.as_bytes();
    let out1 = hash_to_scalar(inp_1);
    let out2 = hash_to_scalar(inp_2);

    assert_ne!(out1, out2);
}

#[test]
fn test_hash_to_curve_same_input() {
    let inp = TEST_STRING_1.as_bytes();
    let out1 = hash_to_curve(inp);
    let out2 = hash_to_curve(inp);

    assert_eq!(out1, out2);
}

#[test]
fn test_hash_to_curve_diff_inputs() {
    let inp_1 = TEST_STRING_1.as_bytes();
    let inp_2 = TEST_STRING_2.as_bytes();
    let out1 = hash_to_curve(inp_1);
    let out2 = hash_to_curve(inp_2);

    assert_ne!(out1, out2);
}
