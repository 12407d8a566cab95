//! The SHA-256 instance of the proof-of-work capability.

use crate::pow::{all_alphanumeric, has_leading_zero_run, ProofOfWork};
use rand::Rng;
use sha2::{Digest, Sha256};
use vstd::prelude::*;
use vstd::string::StringExecFns;

verus! {

/// The SHA-256 digest of `data`, computed only by the outside hash
/// implementation and named here so contracts can speak of it.
pub uninterp spec fn sha256_of(data: Seq<u8>) -> Seq<u8>;

/// Relies on sha2's `Sha256` through the `Digest` trait: the digest is a
/// pure function of the input bytes and is always 32 bytes long.
#[verifier::external_body]
fn sha256_digest(data: &[u8]) -> (r: Vec<u8>)
    ensures
        r@ == sha256_of(data@),
        r@.len() == 32,
{
    Sha256::digest(data).to_vec()
}

/// Relies on rand's `thread_rng` sampled through the `Alphanumeric`
/// distribution, which draws each character uniformly from 'a'..='z',
/// 'A'..='Z' and '0'..='9'.
#[verifier::external_body]
fn random_alphanumeric(length: usize) -> (r: String)
    ensures
        r@.len() == length as nat,
        all_alphanumeric(r@),
{
    rand::thread_rng()
        .sample_iter(&rand::distributions::Alphanumeric)
        .take(length)
        .map(char::from)
        .collect()
}

/// Proof of work over a SHA-256 digest: a solution's digest must begin
/// with the required number of ASCII '0' bytes.
pub struct Sha2_256;

impl ProofOfWork for Sha2_256 {
    open spec fn digest_spec(&self, data: Seq<u8>) -> Seq<u8> {
        sha256_of(data)
    }

    fn generate_challenge(&self, length: usize, zeros: usize) -> (r: (String, String)) {
        let secret = random_alphanumeric(length);
        let mut challenge = secret.clone();
        challenge.append(":");
        proof {
            reveal_strlit(":");
            assert(challenge@ =~= secret@ + seq![':'] + Seq::new(0, |j: int| '0'));
        }
        let mut i: usize = 0;
        while i < zeros
            invariant
                i <= zeros,
                challenge@ =~= secret@ + seq![':'] + Seq::new(i as nat, |j: int| '0'),
            decreases zeros - i,
        {
            challenge.append("0");
            proof {
                reveal_strlit("0");
                assert(challenge@ =~= secret@ + seq![':'] + Seq::new(
                    (i + 1) as nat,
                    |j: int| '0',
                ));
            }
            i += 1;
        }
        (secret, challenge)
    }

    fn verify_proof(&self, random_string: &str, nonce: &str, zeros: usize) -> (r: bool) {
        let mut data = String::from_str(random_string);
        data.append(nonce);
        let digest = sha256_digest(data.as_str().as_bytes());
        has_leading_zero_run(digest.as_slice(), zeros)
    }
}

} // verus!
