use ark_bn254::{Bn254, Fr};
use ark_relations::r1cs::{
    ConstraintSynthesizer, ConstraintSystemRef, LinearCombination, SynthesisError, Variable,
};
use ark_serialize::CanonicalSerialize;
use ark_snark::SNARK;
use offchain_labs::batch::Batch;
use offchain_labs::circuit::{synthesize, CircuitShape};
use offchain_labs::commands::{process_batch, upload_bend_program, verify_and_submit};
use offchain_labs::TRACE_CAPACITY;

struct ReplayCircuit {
    num_instance: usize,
    num_witness: usize,
    a: Vec<usize>,
    b: Vec<usize>,
    c: Vec<usize>,
}

fn var_of(index: usize, num_instance: usize) -> Variable {
    if index == 0 {
        Variable::One
    } else if index < num_instance {
        Variable::Instance(index)
    } else {
        Variable::Witness(index - num_instance)
    }
}

impl ConstraintSynthesizer<Fr> for ReplayCircuit {
    fn generate_constraints(self, cs: ConstraintSystemRef<Fr>) -> Result<(), SynthesisError> {
        for _ in 1..self.num_instance {
            cs.new_input_variable(|| Ok(Fr::from(1u64)))?;
        }
        for _ in 0..self.num_witness {
            cs.new_witness_variable(|| Ok(Fr::from(0u64)))?;
        }
        for i in 0..self.a.len() {
            cs.enforce_constraint(
                LinearCombination::from(var_of(self.a[i], self.num_instance)),
                LinearCombination::from(var_of(self.b[i], self.num_instance)),
                LinearCombination::from(var_of(self.c[i], self.num_instance)),
            )?;
        }
        Ok(())
    }
}

fn commands_ceremony(shape: CircuitShape) -> (Vec<u8>, Vec<u8>) {
    // An empty throwaway batch fixes the circuit geometry. Its id is
    // u64::MAX, which the sequencer's counter never assigns, so it cannot
    // collide with a sealed batch.
    let empty_batch = Batch::new(Vec::new(), Vec::new(), 0, u64::MAX);
    let no_traces: Vec<Vec<Vec<u8>>> = Vec::new();
    let cs = synthesize(&empty_batch, &no_traces, &shape).expect("shape synthesis");
    let circuit = ReplayCircuit {
        num_instance: cs.num_instance,
        num_witness: cs.num_witness,
        a: cs.a,
        b: cs.b,
        c: cs.c,
    };
    let mut rng = ark_std::rand::thread_rng();
    let (pk, vk) =
        ark_groth16::Groth16::<Bn254>::circuit_specific_setup(circuit, &mut rng).expect("setup");
    let mut pk_bytes = Vec::new();
    pk.serialize_uncompressed(&mut pk_bytes).expect("proving key serialization");
    let mut vk_bytes = Vec::new();
    vk.serialize_uncompressed(&mut vk_bytes).expect("verifying key serialization");
    (pk_bytes, vk_bytes)
}

#[test]
fn test_upload_bend_program() {
    let result = upload_bend_program();
    assert!(result.is_ok());
}

#[test]
fn test_process_batch() {
    let result = process_batch();
    assert!(result.is_ok());
}

#[test]
fn test_verify_and_submit() {
    let shape = CircuitShape::from_capacities(50, 25, TRACE_CAPACITY).expect("shape");
    let (pk, vk) = commands_ceremony(shape);
    let result = verify_and_submit(pk, vk);
    assert!(result.is_ok());
}
