use pow_gate::utils::{generate_challenge, verify_proof};

#[test]
fn verify_is_deterministic() {
    let cases = [
        ("CFc2hAsAk6", "6032407", 3usize),
        ("a", "b", 1),
        ("", "", 0),
        ("random_string", "123", 4),
    ];
    for (secret, nonce, zeros) in cases {
        let first = verify_proof(secret, nonce, zeros);
        for _ in 0..10 {
            assert_eq!(verify_proof(secret, nonce, zeros), first);
        }
    }
}

#[test]
fn zero_difficulty_accepts_everything() {
    let cases = [
        ("", ""),
        ("CFc2hAsAk6", "6032407"),
        ("abc", "\u{fffd}xyz"),
        ("random_string", "123"),
    ];
    for (secret, nonce) in cases {
        assert!(verify_proof(secret, nonce, 0));
    }
}

#[test]
fn difficulty_is_monotonic() {
    // a solution at difficulty 3 solves every smaller difficulty too
    for zeros in 0..=3usize {
        assert!(verify_proof("CFc2hAsAk6", "6032407", zeros));
    }
    for zeros in 0..=1usize {
        assert!(verify_proof("FWDvotNNpm", "634", zeros));
    }
}

#[test]
fn round_trip_generate_then_verify() {
    // Brute-force at difficulty 1: one digest in 256 begins with an ASCII
    // '0' byte, so the search ends quickly.
    let zeros: usize = 1;
    let (secret, challenge) = generate_challenge(10, zeros);
    assert_eq!(secret.len(), 10);
    let mut found = None;
    for candidate in 0u64..100_000 {
        if verify_proof(&secret, &candidate.to_string(), zeros) {
            found = Some(candidate);
            break;
        }
    }
    let nonce = found.expect("a difficulty-1 nonce appears quickly").to_string();
    assert!(verify_proof(&secret, &nonce, zeros));
    // the challenge embeds exactly the secret the verification used
    assert_eq!(challenge, format!("{}:{}", secret, "0".repeat(zeros)));
}
