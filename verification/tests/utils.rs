use pow_gate::utils::{generate_challenge, verify_proof};

#[test]
fn test_generate_challenge() {
    let length: usize = 10;
    let zeros: usize = 4;
    let (random_string, challenge) = generate_challenge(length, zeros);
    assert_eq!(random_string.len(), length);
    assert!(challenge.contains(&"0".repeat(zeros)));
}

#[test]
fn test_verify_proof() {
    assert_eq!(verify_proof("random_string", "123", 4), false);
    assert_eq!(verify_proof("CFc2hAsAk6", "6032407", 3), true);
    assert_eq!(verify_proof("FWDvotNNpm", "634", 1), true);
    assert_eq!(verify_proof("FWDvotNNpm", "634", 2), false);
    assert_eq!(verify_proof("random_string", "123", 0), true);
}
