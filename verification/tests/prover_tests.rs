use ark_bn254::{Bn254, Fr};
use ark_relations::r1cs::{
    ConstraintSynthesizer, ConstraintSystemRef, LinearCombination, SynthesisError, Variable,
};
use ark_serialize::CanonicalSerialize;
use ark_snark::SNARK;
use offchain_labs::batch::Batch;
use offchain_labs::bend::{BendProgram, ProgramMetadata};
use offchain_labs::circuit::{derive_public_inputs, synthesize, CircuitShape};
use offchain_labs::prover::ZKProver;
use offchain_labs::transaction::Transaction;
use offchain_labs::zk_rollup::Proof;
use offchain_labs::zk_verifier::ZKVerifier;

struct ReplayCircuit {
    num_instance: usize,
    num_witness: usize,
    a: Vec<usize>,
    b: Vec<usize>,
    c: Vec<usize>,
}

fn var_of(index: usize, num_instance: usize) -> Variable {
    if index == 0 {
        Variable::One
    } else if index < num_instance {
        Variable::Instance(index)
    } else {
        Variable::Witness(index - num_instance)
    }
}

impl ConstraintSynthesizer<Fr> for ReplayCircuit {
    fn generate_constraints(self, cs: ConstraintSystemRef<Fr>) -> Result<(), SynthesisError> {
        for _ in 1..self.num_instance {
            cs.new_input_variable(|| Ok(Fr::from(1u64)))?;
        }
        for _ in 0..self.num_witness {
            cs.new_witness_variable(|| Ok(Fr::from(0u64)))?;
        }
        for i in 0..self.a.len() {
            cs.enforce_constraint(
                LinearCombination::from(var_of(self.a[i], self.num_instance)),
                LinearCombination::from(var_of(self.b[i], self.num_instance)),
                LinearCombination::from(var_of(self.c[i], self.num_instance)),
            )?;
        }
        Ok(())
    }
}

fn prover_ceremony(shape: CircuitShape) -> (Vec<u8>, Vec<u8>) {
    // An empty throwaway batch fixes the circuit geometry. Its id is
    // u64::MAX, which the sequencer's counter never assigns, so it cannot
    // collide with a sealed batch.
    let empty_batch = Batch::new(Vec::new(), Vec::new(), 0, u64::MAX);
    let no_traces: Vec<Vec<Vec<u8>>> = Vec::new();
    let cs = synthesize(&empty_batch, &no_traces, &shape).expect("shape synthesis");
    let circuit = ReplayCircuit {
        num_instance: cs.num_instance,
        num_witness: cs.num_witness,
        a: cs.a,
        b: cs.b,
        c: cs.c,
    };
    let mut rng = ark_std::rand::thread_rng();
    let (pk, vk) =
        ark_groth16::Groth16::<Bn254>::circuit_specific_setup(circuit, &mut rng).expect("setup");
    let mut pk_bytes = Vec::new();
    pk.serialize_uncompressed(&mut pk_bytes).expect("proving key serialization");
    let mut vk_bytes = Vec::new();
    vk.serialize_uncompressed(&mut vk_bytes).expect("verifying key serialization");
    (pk_bytes, vk_bytes)
}

fn pure_transfer(sender: &str, recipient: &str, amount: u8, nonce: u64) -> Transaction {
    Transaction::new(
        sender.to_string(),
        recipient.to_string(),
        vec![amount],
        nonce,
        String::new(),
    )
}

#[test]
fn test_prover_generate_proof() {
    let shape = CircuitShape::from_capacities(3, 2, 4).expect("shape");
    let (pk, vk) = prover_ceremony(shape);
    let prover = ZKProver::new(pk, shape).expect("prover");
    let batch = Batch::new(
        vec![
            pure_transfer("Alice", "Bob", 100, 1),
            pure_transfer("Bob", "Charlie", 50, 2),
        ],
        Vec::new(),
        7,
        0,
    );
    let proof = prover.generate_proof(&batch).expect("proof generation");
    assert_eq!(proof.data().len(), 256);

    let verifier = ZKVerifier::new(vk);
    let inputs = derive_public_inputs(&batch, 2);
    let verdict = verifier.verify_proof(&proof, &inputs).expect("verification");
    assert!(verdict, "a freshly generated proof must verify");
}

#[test]
fn test_prover_rejects_unresolved_program_reference() {
    let shape = CircuitShape::from_capacities(3, 2, 4).expect("shape");
    let (pk, _) = prover_ceremony(shape);
    let prover = ZKProver::new(pk, shape).expect("prover");
    let batch = Batch::new(
        vec![Transaction::new(
            "Alice".to_string(),
            "Bob".to_string(),
            vec![100],
            1,
            "no_such_program".to_string(),
        )],
        Vec::new(),
        7,
        0,
    );
    let result = prover.generate_proof(&batch);
    assert!(result.is_err(), "an unresolved program reference must fail");
}

#[test]
fn test_prover_rejects_oversized_batch() {
    let shape = CircuitShape::from_capacities(1, 1, 4).expect("shape");
    let (pk, _) = prover_ceremony(shape);
    let prover = ZKProver::new(pk, shape).expect("prover");
    let batch = Batch::new(
        vec![
            pure_transfer("Alice", "Bob", 1, 1),
            pure_transfer("Bob", "Charlie", 2, 2),
        ],
        Vec::new(),
        7,
        0,
    );
    let result = prover.generate_proof(&batch);
    assert!(result.is_err(), "a batch above the circuit capacity must fail");
}

#[test]
fn test_proof_round_trip_same_verdict() {
    let shape = CircuitShape::from_capacities(3, 2, 4).expect("shape");
    let (pk, vk) = prover_ceremony(shape);
    let prover = ZKProver::new(pk, shape).expect("prover");
    let batch = Batch::new(vec![pure_transfer("Alice", "Bob", 9, 1)], Vec::new(), 7, 0);
    let proof = prover.generate_proof(&batch).expect("proof generation");

    let verifier = ZKVerifier::new(vk);
    let inputs = derive_public_inputs(&batch, 2);
    let direct = verifier.verify_proof(&proof, &inputs).expect("verification");

    // Serialize the proof (its wire format is its byte payload), rebuild it,
    // and verify again: the verdict must be identical.
    let wire: Vec<u8> = proof.data().to_vec();
    let rebuilt = Proof::new(wire);
    let after_round_trip = verifier.verify_proof(&rebuilt, &inputs).expect("verification");
    assert_eq!(direct, after_round_trip);
    assert!(direct);
}

#[test]
fn test_tampered_proof_does_not_verify() {
    let shape = CircuitShape::from_capacities(3, 2, 4).expect("shape");
    let (pk, vk) = prover_ceremony(shape);
    let prover = ZKProver::new(pk, shape).expect("prover");
    let batch = Batch::new(vec![pure_transfer("Alice", "Bob", 9, 1)], Vec::new(), 7, 0);
    let proof = prover.generate_proof(&batch).expect("proof generation");

    let verifier = ZKVerifier::new(vk);
    let inputs = derive_public_inputs(&batch, 2);

    let mut bytes = proof.data().to_vec();
    bytes[3] ^= 0xff;
    let tampered = Proof::new(bytes);
    let verdict = verifier.verify_proof(&tampered, &inputs);
    assert!(
        !matches!(verdict, Ok(true)),
        "a tampered proof must not verify"
    );
}

#[test]
fn test_wrong_public_inputs_do_not_verify() {
    let shape = CircuitShape::from_capacities(3, 2, 4).expect("shape");
    let (pk, vk) = prover_ceremony(shape);
    let prover = ZKProver::new(pk, shape).expect("prover");
    let batch = Batch::new(vec![pure_transfer("Alice", "Bob", 9, 1)], Vec::new(), 7, 0);
    let proof = prover.generate_proof(&batch).expect("proof generation");

    let verifier = ZKVerifier::new(vk);
    // The batch deploys no program, so its public inputs are all zero;
    // claiming one occupied program slot must be rejected.
    let wrong_inputs: Vec<u64> = vec![1, 0];
    let verdict = verifier.verify_proof(&proof, &wrong_inputs).expect("verification");
    assert!(!verdict, "foreign public inputs must not verify");
}

#[test]
fn test_deploy_then_prove_batch_with_program() {
    let shape = CircuitShape::from_capacities(3, 2, 4).expect("shape");
    let (pk, vk) = prover_ceremony(shape);
    let mut prover = ZKProver::new(pk, shape).expect("prover");
    let program = BendProgram::new(
        vec![1, 2, 3, 4],
        ProgramMetadata {
            name: "Test Program".to_string(),
            version: "1.0.0".to_string(),
            description: "Bend program for test".to_string(),
        },
        "Test Author".to_string(),
        0,
    );
    let program_id = program.id().to_string();
    let batch = Batch::new(
        vec![Transaction::new(
            "Alice".to_string(),
            "Bob".to_string(),
            vec![100],
            1,
            program_id,
        )],
        vec![program],
        7,
        0,
    );
    // Deployment is the one write to the prover; proving is read-only and
    // resolves the reference against the deployed program.
    prover.deploy_programs(&batch);
    let proof = prover.generate_proof(&batch).expect("proof generation");

    let verifier = ZKVerifier::new(vk);
    let inputs = derive_public_inputs(&batch, 2);
    assert_eq!(inputs, vec![1, 0]);
    let verdict = verifier.verify_proof(&proof, &inputs).expect("verification");
    assert!(verdict, "a proof over a deployed program must verify");
}
