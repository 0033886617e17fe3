//! The Instarand client glue on top of the Goldberg VRF: it canonicalizes
//! the pair of a user input and the server's public key into the server's
//! VRF input, and hashes a client prefix with the VRF output string into the
//! 32-byte beacon value.
use vstd::prelude::*;

use crate::bytes::push_bytes;
use crate::goldberg_vrf::{GoldbergVrf, OutputGoldbergVrf};
use crate::hashes::{keccak256, keccak256_spec};
use crate::secp::SecpPointBytes;
use vstd::slice::slice_to_vec;

verus! {

impl GoldbergVrf {
    /// The server's VRF input: the user input followed by the compressed
    /// client public key.
    pub fn generate_server_input(u: &[u8], pk: &SecpPointBytes) -> (r: Vec<u8>)
        ensures
            r@ == u@ + pk.b@,
    {
        let mut inp = slice_to_vec(u);
        push_bytes(&mut inp, &pk.b);
        inp
    }

    /// The emitted beacon value: the Keccak digest of the client prefix
    /// followed by the VRF output string.
    pub fn hash_output(client_prefix: &[u8], out: &OutputGoldbergVrf) -> (r: Vec<u8>)
        ensures
            r@ == keccak256_spec(client_prefix@ + out.beta@),
            r@.len() == 32,
    {
        let mut inp = slice_to_vec(client_prefix);
        push_bytes(&mut inp, &out.beta);
        keccak256(inp.as_slice())
    }
}

} // verus!
