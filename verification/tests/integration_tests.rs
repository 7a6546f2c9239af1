use ark_bn254::{Bn254, Fr};
use ark_relations::r1cs::{
    ConstraintSynthesizer, ConstraintSystemRef, LinearCombination, SynthesisError, Variable,
};
use ark_serialize::CanonicalSerialize;
use ark_snark::SNARK;
use offchain_labs::batch::Batch;
use offchain_labs::circuit::{synthesize, CircuitShape};
use offchain_labs::config::{Config, ProverConfig, SequencerConfig, VerifierConfig};
use offchain_labs::transaction::Transaction;
use offchain_labs::{OffchainLabs, TRACE_CAPACITY};

struct ReplayCircuit {
    num_instance: usize,
    num_witness: usize,
    a: Vec<usize>,
    b: Vec<usize>,
    c: Vec<usize>,
}

fn var_of(index: usize, num_instance: usize) -> Variable {
    if index == 0 {
        Variable::One
    } else if index < num_instance {
        Variable::Instance(index)
    } else {
        Variable::Witness(index - num_instance)
    }
}

impl ConstraintSynthesizer<Fr> for ReplayCircuit {
    fn generate_constraints(self, cs: ConstraintSystemRef<Fr>) -> Result<(), SynthesisError> {
        for _ in 1..self.num_instance {
            cs.new_input_variable(|| Ok(Fr::from(1u64)))?;
        }
        for _ in 0..self.num_witness {
            cs.new_witness_variable(|| Ok(Fr::from(0u64)))?;
        }
        for i in 0..self.a.len() {
            cs.enforce_constraint(
                LinearCombination::from(var_of(self.a[i], self.num_instance)),
                LinearCombination::from(var_of(self.b[i], self.num_instance)),
                LinearCombination::from(var_of(self.c[i], self.num_instance)),
            )?;
        }
        Ok(())
    }
}

fn integration_ceremony(shape: CircuitShape) -> (Vec<u8>, Vec<u8>) {
    // An empty throwaway batch fixes the circuit geometry. Its id is
    // u64::MAX, which the sequencer's counter never assigns, so it cannot
    // collide with a sealed batch.
    let empty_batch = Batch::new(Vec::new(), Vec::new(), 0, u64::MAX);
    let no_traces: Vec<Vec<Vec<u8>>> = Vec::new();
    let cs = synthesize(&empty_batch, &no_traces, &shape).expect("shape synthesis");
    let circuit = ReplayCircuit {
        num_instance: cs.num_instance,
        num_witness: cs.num_witness,
        a: cs.a,
        b: cs.b,
        c: cs.c,
    };
    let mut rng = ark_std::rand::thread_rng();
    let (pk, vk) =
        ark_groth16::Groth16::<Bn254>::circuit_specific_setup(circuit, &mut rng).expect("setup");
    let mut pk_bytes = Vec::new();
    pk.serialize_uncompressed(&mut pk_bytes).expect("proving key serialization");
    let mut vk_bytes = Vec::new();
    vk.serialize_uncompressed(&mut vk_bytes).expect("verifying key serialization");
    (pk_bytes, vk_bytes)
}

fn create_test_config() -> Config {
    Config {
        zk_params_path: "test_params.json".to_string(),
        state_db_path: "test_state.db".to_string(),
        prover_config: ProverConfig {
            proving_key_path: "test_proving_key.bin".to_string(),
            max_batch_size: 10,
        },
        verifier_config: VerifierConfig {
            verification_key_path: "test_verification_key.bin".to_string(),
        },
        sequencer_config: SequencerConfig {
            max_pending_transactions: 100,
            max_pending_programs: 50,
            batch_interval_seconds: 10,
            max_batch_size: 50,
            max_programs_per_batch: 25,
        },
    }
}

fn create_engine() -> OffchainLabs {
    let config = create_test_config();
    let shape = CircuitShape::from_capacities(
        config.sequencer_config.max_batch_size,
        config.sequencer_config.max_programs_per_batch,
        TRACE_CAPACITY,
    )
    .expect("shape");
    let (pk, vk) = integration_ceremony(shape);
    OffchainLabs::new(config, pk, vk).expect("engine")
}

fn transfer(sender: &str, recipient: &str, amount: u8, nonce: u64) -> Transaction {
    Transaction::new(
        sender.to_string(),
        recipient.to_string(),
        vec![amount],
        nonce,
        String::new(),
    )
}

#[test]
fn test_offchain_labs_initialization() {
    let config = create_test_config();
    let shape = CircuitShape::from_capacities(
        config.sequencer_config.max_batch_size,
        config.sequencer_config.max_programs_per_batch,
        TRACE_CAPACITY,
    )
    .expect("shape");
    let (pk, vk) = integration_ceremony(shape);
    let hvm = OffchainLabs::new(config, pk, vk);
    assert!(hvm.is_ok());
}

#[test]
fn test_transaction_processing() {
    let mut hvm = create_engine();
    let transaction = transfer("Alice", "Bob", 100, 1);
    let result = hvm.process_transaction(transaction);
    assert!(result.is_ok());
}

#[test]
fn test_multiple_transactions() {
    let mut hvm = create_engine();
    let transactions = vec![
        transfer("Alice", "Bob", 100, 1),
        transfer("Bob", "Charlie", 50, 1),
        transfer("Charlie", "Alice", 25, 1),
    ];

    for (i, t) in transactions.into_iter().enumerate() {
        let result = hvm.process_transaction(t);
        assert!(result.is_ok(), "Failed to process transaction {}", i);
    }

    assert_eq!(hvm.processed_transactions_count(), 3, "Expected 3 processed transactions");
    assert_eq!(hvm.pending_transactions_count(), 0, "Expected 0 pending transactions");

    let final_state = hvm.get_current_state().unwrap();
    assert_eq!(final_state.balance(), 768, "Unexpected final balance");
    assert_eq!(final_state.nonce(), 3, "Unexpected final nonce");
}

#[test]
fn test_zk_snark_proof_generation_and_verification() {
    let mut hvm = create_engine();

    let transaction = transfer("Alice", "Bob", 100, 1);
    let result = hvm.process_transaction(transaction);
    assert!(result.is_ok());

    let is_valid = result.unwrap();
    assert!(is_valid, "Proof verification failed");

    assert_eq!(hvm.processed_transactions_count(), 1, "Expected 1 processed transaction");
    assert_eq!(hvm.pending_transactions_count(), 0, "Expected 0 pending transactions");
}

#[test]
fn test_queue_full_admission() {
    // The admission gate alone decides the queue-full condition; drive the
    // sequencer directly so no batch is forced between submissions.
    let mut sequencer = offchain_labs::sequencer::Sequencer::new(
        offchain_labs::zk_rollup::State::default(),
        SequencerConfig {
            max_pending_transactions: 5,
            max_pending_programs: 50,
            batch_interval_seconds: 10,
            max_batch_size: 3,
            max_programs_per_batch: 2,
        },
    );
    for i in 0..5 {
        assert!(sequencer
            .process_transaction(transfer(&format!("S{}", i), "R", 1, 1))
            .is_ok());
    }
    let sixth = sequencer.process_transaction(transfer("S5", "R", 1, 1));
    assert!(sixth.is_err(), "the sixth submission must report the full queue");
}

#[test]
fn test_rejects_undecodable_verifying_key() {
    let config = create_test_config();
    let shape = CircuitShape::from_capacities(
        config.sequencer_config.max_batch_size,
        config.sequencer_config.max_programs_per_batch,
        TRACE_CAPACITY,
    )
    .expect("shape");
    let (pk, _) = integration_ceremony(shape);
    let result = OffchainLabs::new(config, pk, vec![1, 2, 3]);
    assert!(result.is_err(), "an undecodable verifying key must fail setup");
}
