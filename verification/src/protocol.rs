//! The per-connection protocol state machine.
//!
//! One connection makes one pass: send a challenge, read one nonce, verify
//! it, and send the reward only on a true verdict. The machine here decides
//! every step; the caller performs the I/O the returned action names and
//! feeds the outcome back as the next event.

use crate::pow::{all_alphanumeric, challenge_text, has_zero_run, ProofOfWork};
use vstd::prelude::*;
use vstd::utf8::encode_utf8;

verus! {

/// Capacity of the single nonce read: bytes beyond this many are never
/// observed, so a longer client message is silently truncated.
pub const NONCE_BUFFER_LEN: usize = 1024;

/// The characters that a lossy UTF-8 decoding yields from `bytes`, named
/// here; they are a pure function of the bytes alone.
pub uninterp spec fn lossy_utf8_of(bytes: Seq<u8>) -> Seq<char>;

/// Relies on std's `String::from_utf8_lossy`: valid UTF-8 runs are decoded
/// and invalid byte sequences replaced, as a pure function of the bytes.
#[verifier::external_body]
fn decode_nonce(bytes: &[u8]) -> (r: String)
    ensures
        r@ == lossy_utf8_of(bytes@),
{
    String::from_utf8_lossy(bytes).into_owned()
}

/// Where one connection stands. `Done` and `Aborted` are terminal.
pub enum HandlerState {
    /// Nothing sent yet; the challenge parameters chosen at startup.
    Start { length: usize, zeros: usize },
    /// The challenge went out; its secret and difficulty are kept for the
    /// verdict.
    ChallengeSent { secret: String, zeros: usize },
    /// The round ended with a verdict; the reward went out only on true.
    Done { rewarded: bool },
    /// An I/O failure or a closed stream ended the round early.
    Aborted,
}

/// What the caller reports back to the machine.
pub enum Event {
    /// The stream is open (and, later, the previous write succeeded).
    Opened,
    /// The single nonce read returned these bytes; zero bytes mean the
    /// client closed the stream without sending anything.
    NonceRead(Vec<u8>),
    /// A read or write on the stream failed.
    IoFailed,
}

/// What the caller must do next.
pub enum Action {
    /// Write this challenge to the stream, then read the nonce.
    SendChallenge(String),
    /// Write the reward to the stream, then close it.
    SendReward,
    /// Close the stream without writing anything further.
    Close,
}

/// The transition relation of one handler step: what states and actions
/// `step` may produce from a state and an event. The secret is drawn at
/// random, so the challenge case fixes its length, alphabet and wire
/// format rather than its value; every other case is exact. The reward is
/// sent when and only when the decoded nonce verifies against the secret
/// and difficulty of the challenge that went out.
pub open spec fn step_ok<A: ProofOfWork>(
    algo: &A,
    pre: HandlerState,
    event: Event,
    post: HandlerState,
    action: Action,
) -> bool {
    match pre {
        HandlerState::Start { length, zeros } => match event {
            Event::Opened => match (post, action) {
                (
                    HandlerState::ChallengeSent { secret, zeros: kept },
                    Action::SendChallenge(challenge),
                ) => {
                    &&& kept == zeros
                    &&& secret@.len() == length as nat
                    &&& all_alphanumeric(secret@)
                    &&& challenge@ == challenge_text(secret@, zeros as nat)
                },
                _ => false,
            },
            _ => post is Aborted && action is Close,
        },
        HandlerState::ChallengeSent { secret, zeros } => match event {
            Event::NonceRead(bytes) => {
                if bytes@.len() == 0 {
                    post is Aborted && action is Close
                } else {
                    let verdict = has_zero_run(
                        algo.digest_spec(encode_utf8(secret@ + lossy_utf8_of(bytes@))),
                        zeros as nat,
                    );
                    &&& post == (HandlerState::Done { rewarded: verdict })
                    &&& if verdict {
                        action is SendReward
                    } else {
                        action is Close
                    }
                }
            },
            _ => post is Aborted && action is Close,
        },
        HandlerState::Done { rewarded } => {
            post == (HandlerState::Done { rewarded }) && action is Close
        },
        HandlerState::Aborted => post is Aborted && action is Close,
    }
}

/// After a challenge went out, a non-empty read decides the round: the
/// reward action is produced when and only when the digest of the secret
/// followed by the decoded nonce meets the challenge's own difficulty.
pub proof fn lemma_reward_iff_verified<A: ProofOfWork>(
    algo: &A,
    secret: String,
    zeros: usize,
    bytes: Vec<u8>,
    post: HandlerState,
    action: Action,
)
    requires
        bytes@.len() > 0,
        step_ok(
            algo,
            HandlerState::ChallengeSent { secret, zeros },
            Event::NonceRead(bytes),
            post,
            action,
        ),
    ensures
        action is SendReward <==> has_zero_run(
            algo.digest_spec(encode_utf8(secret@ + lossy_utf8_of(bytes@))),
            zeros as nat,
        ),
        post matches HandlerState::Done { rewarded } && rewarded == action is SendReward,
{
}

/// Drive one connection forward by one step.
pub fn step<A: ProofOfWork>(algo: &A, state: HandlerState, event: Event) -> (r: (
    HandlerState,
    Action,
))
    ensures
        step_ok(algo, state, event, r.0, r.1),
{
    match state {
        HandlerState::Start { length, zeros } => match event {
            Event::Opened => {
                let (secret, challenge) = algo.generate_challenge(length, zeros);
                (
                    HandlerState::ChallengeSent { secret, zeros },
                    Action::SendChallenge(challenge),
                )
            },
            _ => (HandlerState::Aborted, Action::Close),
        },
        HandlerState::ChallengeSent { secret, zeros } => match event {
            Event::NonceRead(bytes) => {
                if bytes.len() == 0 {
                    (HandlerState::Aborted, Action::Close)
                } else {
                    let nonce = decode_nonce(bytes.as_slice());
                    let verdict = algo.verify_proof(secret.as_str(), nonce.as_str(), zeros);
                    let action = if verdict {
                        Action::SendReward
                    } else {
                        Action::Close
                    };
                    (HandlerState::Done { rewarded: verdict }, action)
                }
            },
            _ => (HandlerState::Aborted, Action::Close),
        },
        HandlerState::Done { rewarded } => (HandlerState::Done { rewarded }, Action::Close),
        HandlerState::Aborted => (HandlerState::Aborted, Action::Close),
    }
}

} // verus!
