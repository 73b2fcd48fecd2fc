use file_transfer::zk::{
    compute_commitment, digests_equal, has_proof_components, proof_accepted, verify_proof,
};

const PROOF: &[u8] = b"{\"pi_a\":[\"1\",\"2\"],\"pi_b\":[[\"3\"]],\"pi_c\":[\"4\"],\"protocol\":\"groth16\"}";

fn keccak_of_zero_word() -> [u8; 32] {
    [
        0x29, 0x0d, 0xec, 0xd9, 0x54, 0x8b, 0x62, 0xa8, 0xd6, 0x03, 0x45, 0xa9, 0x88, 0x38, 0x6f,
        0xc8, 0x4b, 0xa6, 0xbc, 0x95, 0x48, 0x40, 0x08, 0xf6, 0x36, 0x2f, 0x93, 0x16, 0x0e, 0xf3,
        0xe5, 0x63,
    ]
}

#[test]
fn commitment_is_keccak_of_file_hash() {
    assert_eq!(compute_commitment(&[0u8; 32]), keccak_of_zero_word());
    assert_ne!(compute_commitment(&[1u8; 32]), [1u8; 32]);
    assert_ne!(compute_commitment(&[1u8; 32]), compute_commitment(&[2u8; 32]));
}

#[test]
fn proof_components_detected() {
    assert!(has_proof_components(PROOF));
    assert!(!has_proof_components(b"{\"pi_a\":1,\"pi_b\":2}"));
    assert!(!has_proof_components(b"{\"pi_a\":1,\"pi_c\":2,\"x\":{\"pi_b\":3}}"));
    assert!(!has_proof_components(b"[\"pi_a\",\"pi_b\",\"pi_c\"]"));
    assert!(!has_proof_components(b"not json"));
    assert!(!has_proof_components(b""));
}

#[test]
fn verify_proof_needs_both_checks() {
    let hash = [0u8; 32];
    let good = keccak_of_zero_word();
    assert!(verify_proof(PROOF, &hash, &good));
    assert!(!verify_proof(PROOF, &hash, &[0u8; 32]));
    assert!(!verify_proof(b"{\"pi_a\":1,\"pi_b\":2}", &hash, &good));
    assert!(!verify_proof(b"garbage", &hash, &good));
}

#[test]
fn verdict_from_checks() {
    let a = [3u8; 32];
    let mut b = [3u8; 32];
    assert!(digests_equal(&a, &b));
    assert!(proof_accepted(true, &a, &b));
    assert!(!proof_accepted(false, &a, &b));
    b[31] = 4;
    assert!(!digests_equal(&a, &b));
    assert!(!proof_accepted(true, &a, &b));
}
