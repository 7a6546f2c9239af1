use offchain_labs::bend::{decode_field_reprs, BendProgram, ProgramMetadata};
use offchain_labs::storage::Storage;

fn meta(name: &str) -> ProgramMetadata {
    ProgramMetadata {
        name: name.to_string(),
        version: "1.0.0".to_string(),
        description: "Bend program for test".to_string(),
    }
}

#[test]
fn test_program_id_collision_deduplicates() {
    // Two programs with identical bytecode and different metadata collide on
    // one id; the most recently stored metadata wins.
    let mut storage = Storage::new();
    let first = BendProgram::new(vec![1, 2, 3, 4], meta("first"), "A".to_string(), 0);
    let second = BendProgram::new(vec![1, 2, 3, 4], meta("second"), "B".to_string(), 0);
    let id = first.id().to_string();
    assert_eq!(first.id(), second.id());

    storage.store_program(first).unwrap();
    storage.store_program(second).unwrap();

    let loaded = storage.load_program(&id).unwrap();
    assert_eq!(loaded.metadata.name, "second");
    assert_eq!(loaded.author, "B");
}

#[test]
fn test_program_id_is_hex_sha256_of_bytecode() {
    let program = BendProgram::new(vec![1, 2, 3, 4], meta("p"), "A".to_string(), 0);
    assert_eq!(
        program.id(),
        "9f64a747e1b97f131fabb6b447296c9b6f0201e79fb3c5356e6c77e89b6a806a"
    );
    assert_eq!(program.id().len(), 64);
}

#[test]
fn test_program_id_depends_on_bytecode_alone() {
    let a = BendProgram::new(vec![9, 9], meta("x"), "A".to_string(), 1);
    let b = BendProgram::new(vec![9, 9], meta("y"), "B".to_string(), 2);
    let c = BendProgram::new(vec![9, 9, 9], meta("x"), "A".to_string(), 1);
    assert_eq!(a.id(), b.id());
    assert_ne!(a.id(), c.id());
}

#[test]
fn test_load_missing_program_fails() {
    let storage = Storage::new();
    let result = storage.load_program("0000");
    assert!(result.is_err());
}

#[test]
fn test_distinct_programs_coexist() {
    let mut storage = Storage::new();
    let one = BendProgram::new(vec![1], meta("one"), "A".to_string(), 0);
    let two = BendProgram::new(vec![2], meta("two"), "A".to_string(), 0);
    let id_one = one.id().to_string();
    let id_two = two.id().to_string();
    storage.store_program(one).unwrap();
    storage.store_program(two).unwrap();
    assert_eq!(storage.load_program(&id_one).unwrap().metadata.name, "one");
    assert_eq!(storage.load_program(&id_two).unwrap().metadata.name, "two");
}

#[test]
fn test_decode_field_reprs_chunks_output() {
    let mut bytes: Vec<u8> = vec![7u8; 32];
    bytes.extend_from_slice(&[9u8; 32]);
    let decoded = decode_field_reprs(&bytes).unwrap();
    assert_eq!(decoded.len(), 2);
    assert_eq!(decoded[0], vec![7u8; 32]);
    assert_eq!(decoded[1], vec![9u8; 32]);
}

#[test]
fn test_decode_field_reprs_rejects_misaligned_output() {
    let bytes: Vec<u8> = vec![0u8; 33];
    assert!(decode_field_reprs(&bytes).is_err());
    let empty: Vec<u8> = Vec::new();
    assert_eq!(decode_field_reprs(&empty).unwrap().len(), 0);
}
