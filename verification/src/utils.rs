//! Free-function form of the SHA-256 proof of work, for callers that do
//! not go through the `ProofOfWork` trait.

use crate::pow::{all_alphanumeric, challenge_text, has_zero_run, ProofOfWork};
use crate::sha2_256::{sha256_of, Sha2_256};
use vstd::prelude::*;
use vstd::utf8::encode_utf8;

verus! {

/// Produce a fresh random alphanumeric secret of exactly `length`
/// characters and the challenge text derived from it.
pub fn generate_challenge(length: usize, zeros: usize) -> (r: (String, String))
    ensures
        r.0@.len() == length as nat,
        all_alphanumeric(r.0@),
        r.1@ == challenge_text(r.0@, zeros as nat),
{
    Sha2_256.generate_challenge(length, zeros)
}

/// Decide whether the SHA-256 digest of the secret followed by the nonce
/// begins with `zeros` ASCII '0' bytes.
pub fn verify_proof(random_string: &str, nonce: &str, zeros: usize) -> (r: bool)
    ensures
        r == has_zero_run(sha256_of(encode_utf8(random_string@ + nonce@)), zeros as nat),
{
    Sha2_256.verify_proof(random_string, nonce, zeros)
}

} // verus!
