//! The proof-of-work capability: challenge generation and proof
//! verification, abstracted over the hash algorithm.

use vstd::prelude::*;
use vstd::utf8::encode_utf8;

verus! {

/// A digest meets difficulty `zeros` when its first `zeros` bytes are each
/// the ASCII digit '0' (byte 48). A digest shorter than `zeros` bytes never
/// meets it.
pub open spec fn has_zero_run(digest: Seq<u8>, zeros: nat) -> bool {
    zeros <= digest.len() && forall|i: int| 0 <= i < zeros ==> digest[i] == 48u8
}

pub open spec fn is_alphanumeric_char(c: char) -> bool {
    ('a' <= c && c <= 'z') || ('A' <= c && c <= 'Z') || ('0' <= c && c <= '9')
}

pub open spec fn all_alphanumeric(s: Seq<char>) -> bool {
    forall|i: int| 0 <= i < s.len() ==> is_alphanumeric_char(s[i])
}

/// The wire format of a challenge: the secret, one ':', then `zeros`
/// literal '0' characters.
pub open spec fn challenge_text(secret: Seq<char>, zeros: nat) -> Seq<char> {
    secret + seq![':'] + Seq::new(zeros, |i: int| '0')
}

/// Whether `digest` begins with `zeros` ASCII '0' bytes.
pub fn has_leading_zero_run(digest: &[u8], zeros: usize) -> (r: bool)
    ensures
        r == has_zero_run(digest@, zeros as nat),
{
    if zeros > digest.len() {
        return false;
    }
    let mut i: usize = 0;
    while i < zeros
        invariant
            i <= zeros,
            zeros <= digest@.len(),
            forall|j: int| 0 <= j < i ==> digest@[j] == 48u8,
        decreases zeros - i,
    {
        if digest[i] != 48u8 {
            return false;
        }
        i += 1;
    }
    true
}

/// One round of proof-of-work: a pure digest over arbitrary bytes, a
/// challenge built from a fresh random secret, and verification of a
/// claimed nonce against that secret.
pub trait ProofOfWork: Sized {
    /// The digest this algorithm computes, as a mathematical function of
    /// the input bytes.
    spec fn digest_spec(&self, data: Seq<u8>) -> Seq<u8>;

    /// Produce a fresh random alphanumeric secret of exactly `length`
    /// characters and the challenge text derived from it.
    fn generate_challenge(&self, length: usize, zeros: usize) -> (r: (String, String))
        ensures
            r.0@.len() == length as nat,
            all_alphanumeric(r.0@),
            r.1@ == challenge_text(r.0@, zeros as nat),
    ;

    /// Recompute the digest of the secret followed by the nonce and decide
    /// whether it meets the difficulty.
    fn verify_proof(&self, random_string: &str, nonce: &str, zeros: usize) -> (r: bool)
        ensures
            r == has_zero_run(
                self.digest_spec(encode_utf8(random_string@ + nonce@)),
                zeros as nat,
            ),
    ;
}

/// What a true verdict means: the digest of the UTF-8 bytes of the secret
/// followed by the nonce begins with `zeros` ASCII '0' bytes.
pub open spec fn verifies<A: ProofOfWork>(
    algo: &A,
    secret: Seq<char>,
    nonce: Seq<char>,
    zeros: nat,
) -> bool {
    has_zero_run(algo.digest_spec(encode_utf8(secret + nonce)), zeros)
}

/// Verification is deterministic: any two results that `verify_proof`'s
/// contract allows for the same (secret, nonce, zeros) are equal.
pub proof fn lemma_verify_deterministic<A: ProofOfWork>(
    algo: &A,
    secret: Seq<char>,
    nonce: Seq<char>,
    zeros: nat,
    r1: bool,
    r2: bool,
)
    requires
        r1 == verifies(algo, secret, nonce, zeros),
        r2 == verifies(algo, secret, nonce, zeros),
    ensures
        r1 == r2,
{
}

/// Difficulty zero accepts every nonce.
pub proof fn lemma_zero_difficulty<A: ProofOfWork>(algo: &A, secret: Seq<char>, nonce: Seq<char>)
    ensures
        verifies(algo, secret, nonce, 0),
{
}

/// A solution for difficulty `zeros` is a solution for every smaller
/// difficulty.
pub proof fn lemma_verify_monotonic<A: ProofOfWork>(
    algo: &A,
    secret: Seq<char>,
    nonce: Seq<char>,
    zeros: nat,
    smaller: nat,
)
    requires
        verifies(algo, secret, nonce, zeros),
        smaller <= zeros,
    ensures
        verifies(algo, secret, nonce, smaller),
{
}

} // verus!
