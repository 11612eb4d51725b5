use plinko::plinko_game::rng::{be_bytes, calculate_bucket_index, direction_of, generate_ball_path};
use sha2::{Digest, Sha256};

fn expected_path(height: u64, nanos: u64, sender: &str, nonce: u64, rows: u8) -> Vec<u8> {
    let mut hasher = Sha256::new();
    hasher.update(height.to_be_bytes());
    hasher.update(nanos.to_be_bytes());
    hasher.update(sender.as_bytes());
    hasher.update(nonce.to_be_bytes());
    let mut seed = hasher.finalize();
    let mut path = Vec::new();
    for _ in 0..rows {
        let mut hasher = Sha256::new();
        hasher.update(seed);
        seed = hasher.finalize();
        path.push(if seed[0] % 2 == 0 { 0 } else { 1 });
    }
    path
}

#[test]
fn path_follows_the_sha256_chain() {
    for (height, nanos, sender, nonce, rows) in [
        (12345u64, 1_571_797_419_879_305_533u64, "player1", 0u64, 8u8),
        (1, 0, "inj1qy8qg", 7, 12),
        (u64::MAX, u64::MAX, "", u64::MAX, 16),
    ] {
        let path = generate_ball_path(height, nanos, sender, nonce, rows);
        assert_eq!(path, expected_path(height, nanos, sender, nonce, rows));
        assert_eq!(path.len(), rows as usize);
        assert!(path.iter().all(|&d| d == 0 || d == 1));
    }
}

#[test]
fn path_is_deterministic_and_depends_on_nonce() {
    let a = generate_ball_path(100, 5, "player", 1, 16);
    let b = generate_ball_path(100, 5, "player", 1, 16);
    assert_eq!(a, b);
    let paths: Vec<Vec<u8>> = (0..8).map(|n| generate_ball_path(100, 5, "player", n, 16)).collect();
    assert!(paths.iter().any(|p| p != &a));
}

#[test]
fn zero_rows_give_an_empty_path() {
    assert!(generate_ball_path(1, 2, "x", 3, 0).is_empty());
}

#[test]
fn be_bytes_match_std() {
    for x in [0u64, 1, 255, 256, 0x0102_0304_0506_0708, u64::MAX] {
        assert_eq!(be_bytes(x), x.to_be_bytes().to_vec());
    }
}

#[test]
fn bucket_counts_right_turns() {
    assert_eq!(calculate_bucket_index(&[]), 0);
    assert_eq!(calculate_bucket_index(&[0, 0, 0, 0]), 0);
    assert_eq!(calculate_bucket_index(&[1, 0, 1, 1, 0, 0, 0, 1]), 4);
    assert_eq!(calculate_bucket_index(&[1; 16]), 16);
}

#[test]
fn direction_follows_first_byte_parity() {
    assert_eq!(direction_of(&[0]), 0);
    assert_eq!(direction_of(&[7, 0, 0]), 1);
    assert_eq!(direction_of(&[254, 1]), 0);
    assert_eq!(direction_of(&[255]), 1);
}
