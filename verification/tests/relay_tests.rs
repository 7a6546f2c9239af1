use offchain_labs::encoding::to_hex;
use offchain_labs::hashing::blake2b_256;
use offchain_labs::relay::{
    execute_program_data_to_h256, generate_tx_hash, validate_bend_program, verify_calldata,
    BendProgram, BendProgramMetadata,
};

fn relay_meta() -> BendProgramMetadata {
    BendProgramMetadata {
        name: "Test Program".to_string(),
        version: "1.0.0".to_string(),
        description: "Bend program for test".to_string(),
        author: "Author".to_string(),
    }
}

#[test]
fn test_validate_bend_program_accepts_code() {
    let program = BendProgram {
        id: [0u8; 32],
        code: vec![0, 1, 2, 3],
        metadata: relay_meta(),
    };
    assert!(validate_bend_program(&program).is_ok());
}

#[test]
fn test_validate_bend_program_rejects_empty_code() {
    let program = BendProgram {
        id: [0u8; 32],
        code: Vec::new(),
        metadata: relay_meta(),
    };
    assert!(validate_bend_program(&program).is_err());
}

#[test]
fn test_verify_calldata_accepts_matching_prefix() {
    let data = vec![10u8, 20, 30];
    let digest = blake2b_256(&data);
    let mut proof = digest[..8].to_vec();
    proof.extend_from_slice(&[0u8; 24]);
    assert!(verify_calldata(&data, &proof, [0u8; 32]));
}

#[test]
fn test_verify_calldata_rejects_wrong_prefix() {
    let data = vec![10u8, 20, 30];
    let digest = blake2b_256(&data);
    let mut proof = digest[..8].to_vec();
    proof[0] ^= 0x01;
    proof.extend_from_slice(&[0u8; 24]);
    assert!(!verify_calldata(&data, &proof, [0u8; 32]));
}

#[test]
fn test_verify_calldata_rejects_short_proof() {
    let data = vec![10u8, 20, 30];
    let proof = vec![0u8; 31];
    assert!(!verify_calldata(&data, &proof, [0u8; 32]));
}

#[test]
fn test_generate_tx_hash_is_deterministic() {
    let data = vec![1u8, 2, 3];
    let proof = vec![4u8, 5];
    let nonce = [7u8; 32];
    let first = generate_tx_hash(&data, &proof, nonce);
    let second = generate_tx_hash(&data, &proof, nonce);
    assert_eq!(first, second);
    assert_eq!(first.len(), 32);
    let other = generate_tx_hash(&data, &proof, [8u8; 32]);
    assert_ne!(first, other);
}

#[test]
fn test_blake2b_digest_of_empty_input() {
    let digest = blake2b_256(&[]);
    assert_eq!(
        to_hex(&digest),
        "0e5751c026e543b2e8ab2eb06099daa1d1e5df47778f7787faab45cdf12fe3a8"
    );
}

#[test]
fn test_to_hex_exact_values() {
    assert_eq!(to_hex(&[0xbe, 0xef]), "beef");
    assert_eq!(to_hex(&[0x00, 0x0f, 0xf0]), "000ff0");
    assert_eq!(to_hex(&[]), "");
}

#[test]
fn test_execute_program_data_commitment() {
    let id = [5u8; 32];
    let input = vec![1u8, 2, 3];
    let direct = execute_program_data_to_h256(id, &input);
    let mut concat = id.to_vec();
    concat.extend_from_slice(&input);
    assert_eq!(direct, blake2b_256(&concat));
    assert_eq!(direct.len(), 32);
}
