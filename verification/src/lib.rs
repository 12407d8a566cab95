//! A proof-of-work challenge/response gate.
//!
//! A server issues a fresh random challenge per connection, the client
//! searches for a nonce, and the server verifies the claimed solution by
//! recomputing a digest over the secret and the nonce and checking its
//! leading bytes. The reward is released only on a true verdict.

pub mod pow;
pub mod protocol;
pub mod quotes;
pub mod sha2_256;
pub mod utils;

pub use pow::ProofOfWork;
pub use sha2_256::Sha2_256;
