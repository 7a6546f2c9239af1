use ark_bn254::{Bn254, Fr};
use ark_relations::r1cs::{
    ConstraintSynthesizer, ConstraintSystemRef, LinearCombination, SynthesisError, Variable,
};
use ark_serialize::CanonicalSerialize;
use ark_snark::SNARK;
use offchain_labs::batch::Batch;
use offchain_labs::circuit::{synthesize, CircuitShape};
use offchain_labs::config::{Config, ProverConfig, SequencerConfig, VerifierConfig};
use offchain_labs::transaction::Transaction;
use offchain_labs::zk_rollup::Proof;
use offchain_labs::zk_verifier::ZKVerifier;
use offchain_labs::{OffchainLabs, TRACE_CAPACITY};

struct ReplayCircuit {
    num_instance: usize,
    num_witness: usize,
    a: Vec<usize>,
    b: Vec<usize>,
    c: Vec<usize>,
}

fn var_of(index: usize, num_instance: usize) -> Variable {
    if index == 0 {
        Variable::One
    } else if index < num_instance {
        Variable::Instance(index)
    } else {
        Variable::Witness(index - num_instance)
    }
}

impl ConstraintSynthesizer<Fr> for ReplayCircuit {
    fn generate_constraints(self, cs: ConstraintSystemRef<Fr>) -> Result<(), SynthesisError> {
        for _ in 1..self.num_instance {
            cs.new_input_variable(|| Ok(Fr::from(1u64)))?;
        }
        for _ in 0..self.num_witness {
            cs.new_witness_variable(|| Ok(Fr::from(0u64)))?;
        }
        for i in 0..self.a.len() {
            cs.enforce_constraint(
                LinearCombination::from(var_of(self.a[i], self.num_instance)),
                LinearCombination::from(var_of(self.b[i], self.num_instance)),
                LinearCombination::from(var_of(self.c[i], self.num_instance)),
            )?;
        }
        Ok(())
    }
}

fn verifier_ceremony(shape: CircuitShape) -> (Vec<u8>, Vec<u8>) {
    // An empty throwaway batch fixes the circuit geometry. Its id is
    // u64::MAX, which the sequencer's counter never assigns, so it cannot
    // collide with a sealed batch.
    let empty_batch = Batch::new(Vec::new(), Vec::new(), 0, u64::MAX);
    let no_traces: Vec<Vec<Vec<u8>>> = Vec::new();
    let cs = synthesize(&empty_batch, &no_traces, &shape).expect("shape synthesis");
    let circuit = ReplayCircuit {
        num_instance: cs.num_instance,
        num_witness: cs.num_witness,
        a: cs.a,
        b: cs.b,
        c: cs.c,
    };
    let mut rng = ark_std::rand::thread_rng();
    let (pk, vk) =
        ark_groth16::Groth16::<Bn254>::circuit_specific_setup(circuit, &mut rng).expect("setup");
    let mut pk_bytes = Vec::new();
    pk.serialize_uncompressed(&mut pk_bytes).expect("proving key serialization");
    let mut vk_bytes = Vec::new();
    vk.serialize_uncompressed(&mut vk_bytes).expect("verifying key serialization");
    (pk_bytes, vk_bytes)
}

#[test]
fn test_verifier_verify_proof() {
    let config = Config {
        zk_params_path: "test_params.json".to_string(),
        state_db_path: "test_state.db".to_string(),
        prover_config: ProverConfig {
            proving_key_path: "test_proving_key.bin".to_string(),
            max_batch_size: 10,
        },
        verifier_config: VerifierConfig {
            verification_key_path: "test_verification_key.bin".to_string(),
        },
        sequencer_config: SequencerConfig {
            max_pending_transactions: 100,
            max_pending_programs: 50,
            batch_interval_seconds: 10,
            max_batch_size: 50,
            max_programs_per_batch: 25,
        },
    };
    let shape = CircuitShape::from_capacities(50, 25, TRACE_CAPACITY).expect("shape");
    let (pk, vk) = verifier_ceremony(shape);
    let mut hvm = OffchainLabs::new(config, pk, vk).unwrap();
    let transactions = vec![
        Transaction::new("Alice".to_string(), "Bob".to_string(), vec![100], 1, String::new()),
        Transaction::new("Bob".to_string(), "Charlie".to_string(), vec![50], 2, String::new()),
        Transaction::new("Charlie".to_string(), "Alice".to_string(), vec![25], 3, String::new()),
    ];

    for (i, tx) in transactions.into_iter().enumerate() {
        let result = hvm.process_transaction(tx);
        assert!(result.is_ok(), "Failed to process transaction {}: {:?}", i, result.err());
        let is_valid = result.unwrap();
        assert!(is_valid, "Transaction {} was invalid", i);
    }

    let final_state = hvm.get_current_state().unwrap();
    assert_eq!(final_state.balance(), 768, "Unexpected final balance");
    assert_eq!(final_state.nonce(), 3, "Unexpected final nonce");
}

#[test]
fn test_malformed_verifying_key_is_rejected() {
    let verifier = ZKVerifier::new(vec![0xde, 0xad, 0xbe, 0xef]);
    let proof = Proof::new(vec![0u8; 256]);
    let result = verifier.verify_proof(&proof, &vec![0u64; 25]);
    assert!(result.is_err());
    let message = result.err().unwrap().message().clone();
    assert_eq!(message, "Malformed verifying key");
}

#[test]
fn test_input_count_mismatch_is_rejected() {
    let shape = CircuitShape::from_capacities(3, 2, 4).expect("shape");
    let (_, vk) = verifier_ceremony(shape);
    let verifier = ZKVerifier::new(vk);
    let proof = Proof::new(vec![0u8; 256]);
    // The key expects two public inputs; hand it three.
    let result = verifier.verify_proof(&proof, &vec![0u64; 3]);
    assert!(result.is_err());
    let message = result.err().unwrap().message().clone();
    assert_eq!(message, "Malformed verifying key");
}

#[test]
fn test_undecodable_proof_is_rejected() {
    let shape = CircuitShape::from_capacities(3, 2, 4).expect("shape");
    let (_, vk) = verifier_ceremony(shape);
    let verifier = ZKVerifier::new(vk);
    let proof = Proof::new(vec![7u8; 11]);
    let result = verifier.verify_proof(&proof, &vec![0u64; 2]);
    assert!(result.is_err());
    let message = result.err().unwrap().message().clone();
    assert_eq!(message, "Failed to deserialize proof");
}
