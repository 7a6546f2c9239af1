use offchain_labs::config::SequencerConfig;
use offchain_labs::sequencer::Sequencer;
use offchain_labs::transaction::Transaction;
use offchain_labs::zk_rollup::{Proof, State};

fn create_test_sequencer() -> Sequencer {
    let config = SequencerConfig {
        max_pending_transactions: 5,
        max_pending_programs: 3,
        batch_interval_seconds: 1,
        max_batch_size: 3,
        max_programs_per_batch: 2,
    };
    Sequencer::new(State::default(), config)
}

fn tx(sender: &str, recipient: &str, amount: Vec<u8>, nonce: u64, program_id: &str) -> Transaction {
    Transaction::new(
        sender.to_string(),
        recipient.to_string(),
        amount,
        nonce,
        program_id.to_string(),
    )
}

#[test]
fn test_process_transaction() {
    let mut sequencer = create_test_sequencer();
    let t = tx("Alice", "Bob", vec![100], 1, "test_program");
    assert!(sequencer.process_transaction(t).is_ok());
    assert_eq!(sequencer.pending_transactions_count(), 1);
}

#[test]
fn test_max_pending_transactions() {
    let mut sequencer = create_test_sequencer();
    for i in 0..5 {
        let t = tx(
            &format!("Sender{}", i),
            &format!("Recipient{}", i),
            vec![100],
            1,
            "test_program",
        );
        assert!(sequencer.process_transaction(t).is_ok());
    }
    let t = tx("Alice", "Bob", vec![100], 1, "test_program");
    assert!(sequencer.process_transaction(t).is_err());
}

#[test]
fn test_create_batch() {
    let mut sequencer = create_test_sequencer();

    for i in 0..4 {
        let t = tx(
            &format!("Sender{}", i),
            &format!("Recipient{}", i),
            vec![100],
            1,
            "test_program",
        );
        sequencer.process_transaction(t).unwrap();
    }

    let first_batch = sequencer.create_batch(true).unwrap();
    assert!(first_batch.is_some(), "Expected a batch to be created");
    let first_batch = first_batch.unwrap();
    assert_eq!(first_batch.transactions().len(), 3, "Expected 3 transactions in the first batch");
    assert_eq!(sequencer.pending_transactions_count(), 1, "Expected 1 pending transaction after first batch");

    let second_batch = sequencer.create_batch(true).unwrap();
    assert!(second_batch.is_some(), "Expected a second batch to be created");
    let second_batch = second_batch.unwrap();
    assert_eq!(second_batch.transactions().len(), 1, "Expected 1 transaction in the second batch");
    assert_eq!(sequencer.pending_transactions_count(), 0, "Expected 0 pending transactions after second batch");

    let third_batch = sequencer.create_batch(true).unwrap();
    assert!(third_batch.is_none(), "Expected no batch to be created when there are no pending transactions");

    assert!(second_batch.batch_id() > first_batch.batch_id(), "Expected second batch ID to be greater than first batch ID");
}

#[test]
fn test_apply_proof() {
    let mut sequencer = create_test_sequencer();
    let initial_state = sequencer.get_current_state();

    for i in 0..3 {
        let t = tx(
            &format!("Sender{}", i),
            &format!("Recipient{}", i),
            vec![100],
            1,
            "test_program",
        );
        sequencer.process_transaction(t).unwrap();
    }
    let batch = sequencer.create_batch(true).unwrap().unwrap();

    let proof = Proof::new(vec![1, 2, 3, 4]);

    assert!(sequencer.apply_proof(proof, &batch).is_ok());

    let new_state = sequencer.get_current_state();
    assert!(new_state.nonce() > initial_state.nonce());
    assert_eq!(sequencer.processed_transactions_count(), 3);
    assert_eq!(sequencer.pending_transactions_count(), 0);
}

#[test]
fn test_fifo_order_across_batches() {
    let mut sequencer = create_test_sequencer();
    for i in 0..4 {
        let t = tx(&format!("Sender{}", i), "Recipient", vec![1], i as u64, "");
        sequencer.process_transaction(t).unwrap();
    }
    let first = sequencer.create_batch(true).unwrap().unwrap();
    let second = sequencer.create_batch(true).unwrap().unwrap();
    let mut seen: Vec<String> = Vec::new();
    for t in first.transactions() {
        seen.push(t.sender.clone());
    }
    for t in second.transactions() {
        seen.push(t.sender.clone());
    }
    assert_eq!(seen, vec!["Sender0", "Sender1", "Sender2", "Sender3"]);
}

#[test]
fn test_cadence_gate() {
    let config = SequencerConfig {
        max_pending_transactions: 100,
        max_pending_programs: 100,
        batch_interval_seconds: 10,
        max_batch_size: 10,
        max_programs_per_batch: 10,
    };
    let mut sequencer = Sequencer::new_at(State::default(), config, 1000);
    sequencer
        .process_transaction(tx("Alice", "Bob", vec![1], 1, ""))
        .unwrap();
    let gated = sequencer.create_batch_at(false, 1000).unwrap();
    assert!(gated.is_none());
    let gated_still = sequencer.create_batch_at(false, 1009).unwrap();
    assert!(gated_still.is_none());
    let due = sequencer.create_batch_at(false, 1010).unwrap();
    assert!(due.is_some());
    assert_eq!(due.unwrap().transactions().len(), 1);
}

#[test]
fn test_batch_timestamp_and_interval_reset() {
    let config = SequencerConfig {
        max_pending_transactions: 100,
        max_pending_programs: 100,
        batch_interval_seconds: 10,
        max_batch_size: 10,
        max_programs_per_batch: 10,
    };
    let mut sequencer = Sequencer::new_at(State::default(), config, 0);
    sequencer
        .process_transaction(tx("Alice", "Bob", vec![1], 1, ""))
        .unwrap();
    let b = sequencer.create_batch_at(false, 25).unwrap().unwrap();
    assert_eq!(b.timestamp(), 25);
    sequencer
        .process_transaction(tx("Bob", "Alice", vec![2], 1, ""))
        .unwrap();
    assert!(sequencer.create_batch_at(false, 30).unwrap().is_none());
    assert!(sequencer.create_batch_at(false, 35).unwrap().is_some());
}

#[test]
fn test_apply_proof_balance_accumulates_payload_length() {
    let mut sequencer = create_test_sequencer();
    sequencer
        .process_transaction(tx("Alice", "Bob", vec![1], 1, ""))
        .unwrap();
    let batch = sequencer.create_batch(true).unwrap().unwrap();
    let payload: Vec<u8> = vec![0u8; 256];
    sequencer.apply_proof(Proof::new(payload), &batch).unwrap();
    let state = sequencer.get_current_state();
    assert_eq!(state.balance(), 256);
    assert_eq!(state.nonce(), 1);
}

#[test]
fn test_zero_batch_size_emits_no_batch() {
    // A batch is never empty of transactions, so a zero batch size admits
    // no batch at all: the forced call returns nothing and drains nothing.
    let config = SequencerConfig {
        max_pending_transactions: 10,
        max_pending_programs: 10,
        batch_interval_seconds: 1,
        max_batch_size: 0,
        max_programs_per_batch: 2,
    };
    let mut sequencer = Sequencer::new(State::default(), config);
    sequencer
        .process_transaction(tx("Alice", "Bob", vec![1], 1, ""))
        .unwrap();
    let batch = sequencer.create_batch(true).unwrap();
    assert!(batch.is_none());
    assert_eq!(sequencer.pending_transactions_count(), 1);
}
