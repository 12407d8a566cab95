use pow_gate::pow::ProofOfWork;
use pow_gate::sha2_256::Sha2_256;

#[test]
fn sha2_256_test_generate_challenge() {
    let pow_algorithm = Sha2_256;
    let length: usize = 10;
    let zeros: usize = 4;
    let (random_string, challenge) = ProofOfWork::generate_challenge(&pow_algorithm, length, zeros);
    assert_eq!(random_string.len(), length);
    assert!(challenge.contains(&"0".repeat(zeros)));
}

#[test]
fn sha2_256_test_verify_proof() {
    let pow_algorithm = Sha2_256;
    let test_cases = vec![
        ("random_string", "123", 4, false),
        ("CFc2hAsAk6", "6032407", 3, true),
        ("FWDvotNNpm", "634", 1, true),
        ("FWDvotNNpm", "634", 2, false),
        ("random_string", "123", 0, true),
    ];

    for (random_string, nonce, zeros, expected) in test_cases {
        assert_eq!(
            ProofOfWork::verify_proof(&pow_algorithm, random_string, nonce, zeros),
            expected,
            "Failed on random_string: '{}', nonce: '{}', zeros: {}",
            random_string,
            nonce,
            zeros
        );
    }
}

#[test]
fn generated_secret_is_alphanumeric() {
    let pow_algorithm = Sha2_256;
    let (secret, _) = ProofOfWork::generate_challenge(&pow_algorithm, 64, 0);
    assert!(secret.chars().all(|c| c.is_ascii_alphanumeric()));
}

#[test]
fn challenge_format_exact() {
    let pow_algorithm = Sha2_256;
    for (length, zeros) in [(0usize, 0usize), (0, 3), (10, 4), (1, 1), (25, 0)] {
        let (secret, challenge) = ProofOfWork::generate_challenge(&pow_algorithm, length, zeros);
        assert_eq!(secret.len(), length);
        assert_eq!(challenge, format!("{}:{}", secret, "0".repeat(zeros)));
    }
}

#[test]
fn empty_nonce_is_valid_input() {
    let pow_algorithm = Sha2_256;
    assert!(ProofOfWork::verify_proof(&pow_algorithm, "anything", "", 0));
    let first = ProofOfWork::verify_proof(&pow_algorithm, "anything", "", 5);
    let second = ProofOfWork::verify_proof(&pow_algorithm, "anything", "", 5);
    assert_eq!(first, second);
}
