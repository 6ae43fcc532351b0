use session_clicker::commitment::{commit, preimage, same_bytes, verify};

const PLAYER: [u8; 32] = [7u8; 32];

const COMMIT_100_7: [u8; 32] = [
    50, 254, 190, 88, 11, 112, 50, 237, 197, 66, 95, 244, 254, 111, 96, 172, 155, 50, 57, 120,
    183, 222, 35, 92, 194, 125, 17, 56, 198, 113, 12, 249,
];

fn counting_player() -> [u8; 32] {
    let mut player = [0u8; 32];
    for (i, byte) in player.iter_mut().enumerate() {
        *byte = (i + 1) as u8;
    }
    player
}

#[test]
fn preimage_is_clicks_then_nonce_then_identity() {
    let data = preimage(0x0102_0304, 0x0102_0304_0506_0708, &[9, 10]);
    assert_eq!(data, vec![4, 3, 2, 1, 8, 7, 6, 5, 4, 3, 2, 1, 9, 10]);
}

#[test]
fn preimage_of_full_identity_has_44_bytes() {
    let data = preimage(100, 7, &PLAYER);
    assert_eq!(data.len(), 44);
    assert_eq!(&data[..4], &[100, 0, 0, 0]);
    assert_eq!(&data[4..12], &[7, 0, 0, 0, 0, 0, 0, 0]);
    assert_eq!(&data[12..], &PLAYER);
}

#[test]
fn commit_is_sha256_of_preimage() {
    assert_eq!(commit(100, 7, &PLAYER), COMMIT_100_7);
}

#[test]
fn commit_of_counting_identity() {
    let expected: [u8; 32] = [
        28, 241, 202, 236, 129, 186, 196, 200, 67, 133, 65, 197, 126, 126, 107, 201, 244, 95, 14,
        118, 32, 206, 105, 205, 196, 255, 127, 32, 247, 150, 195, 111,
    ];
    assert_eq!(commit(50, 1, &counting_player()), expected);
}

#[test]
fn commit_of_empty_identity() {
    let expected: [u8; 32] = [
        21, 236, 123, 240, 181, 7, 50, 180, 159, 130, 40, 224, 125, 36, 54, 83, 56, 249, 227, 171,
        153, 75, 0, 175, 8, 229, 163, 191, 254, 85, 253, 139,
    ];
    assert_eq!(commit(0, 0, &[]), expected);
}

#[test]
fn commit_is_deterministic() {
    assert_eq!(commit(100, 7, &PLAYER), commit(100, 7, &PLAYER));
}

#[test]
fn verify_accepts_what_commit_made() {
    let cases: [(u32, u64); 5] = [(0, 0), (100, 7), (1, u64::MAX), (u32::MAX, 0), (u32::MAX, u64::MAX)];
    for (clicks, nonce) in cases {
        let hash = commit(clicks, nonce, &PLAYER);
        assert!(verify(&hash, clicks, nonce, &PLAYER));
    }
}

#[test]
fn verify_rejects_other_clicks() {
    assert!(!verify(&COMMIT_100_7, 101, 7, &PLAYER));
    assert!(!verify(&COMMIT_100_7, 99, 7, &PLAYER));
    assert!(!verify(&COMMIT_100_7, 100 + 256, 7, &PLAYER));
}

#[test]
fn verify_rejects_other_nonce() {
    assert!(!verify(&COMMIT_100_7, 100, 8, &PLAYER));
    assert!(!verify(&COMMIT_100_7, 100, 7 + (1 << 56), &PLAYER));
}

#[test]
fn verify_rejects_other_player() {
    for i in 0..32 {
        let mut other = PLAYER;
        other[i] ^= 1;
        assert!(!verify(&COMMIT_100_7, 100, 7, &other));
    }
}

#[test]
fn verify_rejects_changed_hash() {
    for i in 0..32 {
        let mut hash = COMMIT_100_7;
        hash[i] ^= 0x80;
        assert!(!verify(&hash, 100, 7, &PLAYER));
    }
}

#[test]
fn verify_rejects_clicks_and_nonce_swapped() {
    let hash = commit(7, 100, &PLAYER);
    assert!(!verify(&hash, 100, 7, &PLAYER));
}

#[test]
fn same_bytes_compares_every_byte() {
    let a = [3u8; 32];
    assert!(same_bytes(&a, &a));
    assert!(same_bytes(&a, &[3u8; 32]));
    for i in 0..32 {
        let mut b = a;
        b[i] = 4;
        assert!(!same_bytes(&a, &b));
        assert!(!same_bytes(&b, &a));
    }
}
