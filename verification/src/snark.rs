//! The trusted boundary around the arkworks Groth16 stack. Keys and proofs
//! cross this boundary as their uncompressed canonical byte serializations,
//! and field elements as canonical 32-byte little-endian values, so every
//! contract here speaks over plain bytes. Everything else about the circuit
//! lives in verified code.

use crate::circuit::R1cs;
use crate::encoding::le_int;
use vstd::prelude::*;

verus! {

use ark_bn254::{Bn254, Fr};
use ark_ff::{PrimeField, UniformRand};
use ark_snark::SNARK;
use ark_groth16::{Groth16, ProvingKey, VerifyingKey};
use ark_relations::r1cs::ConstraintMatrices;
use ark_serialize::{CanonicalDeserialize, CanonicalSerialize};

/// The order of the BN254 scalar field.
pub open spec fn fr_modulus() -> nat {
    21888242871839275222246405745257275088548364400416034343698204186575808495617nat
}

/// Relies on ark_bn254::Fr: from_le_bytes_mod_order reads little-endian
/// bytes modulo the field order, multiplication is field multiplication,
/// and serialize_uncompressed writes the canonical value back as 32
/// little-endian bytes.
#[verifier::external_body]
pub fn fr_mul_le(a: &Vec<u8>, b: &Vec<u8>) -> (r: Vec<u8>)
    ensures
        r@.len() == 32,
        le_int(r@) == (le_int(a@) * le_int(b@)) % fr_modulus(),
{
    let x = Fr::from_le_bytes_mod_order(a) * Fr::from_le_bytes_mod_order(b);
    let mut out: Vec<u8> = Vec::new();
    x.serialize_uncompressed(&mut out).expect("field element serialization cannot fail");
    out
}

/// An owned, already-deserialized Groth16 proving key. The key object is
/// opaque to verified code; it enters through `pk_from_bytes` alone.
#[verifier::external_body]
pub struct ProvingKeyBox {
    key: ProvingKey<Bn254>,
}

/// Whether the bytes deserialize, under the uncompressed canonical
/// encoding, to a proving key that is fit for proving: each of its three
/// per-variable query vectors is non-empty. (The encoding admits empty
/// query vectors, and the proving call reads the first element of each.)
pub uninterp spec fn spec_pk_decodes(pk: Seq<u8>) -> bool;

/// Relies on ark_groth16: ProvingKey::deserialize_uncompressed — a pure
/// function of the bytes. A key whose a, b-in-G1 or b-in-G2 query vector
/// is empty is rejected here, since the proving call indexes the first
/// element of each; the check tells the degenerate encodings apart and
/// nothing more.
#[verifier::external_body]
pub fn pk_from_bytes(pk_bytes: &Vec<u8>) -> (r: Result<ProvingKeyBox, ()>)
    ensures
        r is Ok <==> spec_pk_decodes(pk_bytes@),
{
    let key = ProvingKey::<Bn254>::deserialize_uncompressed(&pk_bytes[..]).map_err(|_| ())?;
    if key.a_query.is_empty() || key.b_g1_query.is_empty() || key.b_g2_query.is_empty() {
        return Err(());
    }
    Ok(ProvingKeyBox { key })
}

/// The matrices form of a constraint system, opaque to verified code; it
/// enters through `matrices_of` alone.
#[verifier::external_body]
pub struct LoweredMatrices {
    m: ConstraintMatrices<Fr>,
}

/// Converts the unit-coefficient rows of a constraint system into the
/// matrices form the proving call consumes; a pure change of representation.
#[verifier::external_body]
fn matrices_of(cs: &R1cs) -> LoweredMatrices
    requires
        cs.wf(),
{
    let row = |v: &Vec<usize>| v.iter().map(|&i| vec![(Fr::from(1u64), i)]).collect();
    LoweredMatrices { m: ConstraintMatrices::<Fr> {
        num_instance_variables: cs.num_instance,
        num_witness_variables: cs.num_witness,
        num_constraints: cs.a.len(),
        a_num_non_zero: cs.a.len(),
        b_num_non_zero: cs.b.len(),
        c_num_non_zero: cs.c.len(),
        a: row(&cs.a),
        b: row(&cs.b),
        c: row(&cs.c),
    } }
}

/// Relies on ark_groth16::create_proof_with_reduction_and_matrices over
/// fresh randomness, then CanonicalSerialize::serialize_uncompressed of the
/// proof — two G1 points of 64 bytes and one G2 point of 128, 256 bytes in
/// all. The matrices are derived from the same well-formed system the
/// assignment comes from, which keeps every matrix column inside the
/// assignment, and every key from `pk_from_bytes` has the non-empty query
/// vectors the call indexes. A serialized fresh proof holds valid curve
/// points, so deserializing it succeeds. The proof depends on the drawn
/// randomness, so nothing more is promised of its content.
#[verifier::external_body]
fn groth16_prove_lowered(pk: &ProvingKeyBox, lowered: &LoweredMatrices, cs: &R1cs)
    -> (r: Result<Vec<u8>, ()>)
    requires
        cs.wf(),
    ensures
        r matches Ok(p) ==> p@.len() == 256 && spec_proof_decodes(p@),
{
    let w: Vec<Fr> = cs.assignment.iter().map(|x| Fr::from_le_bytes_mod_order(x)).collect();
    let mut rng = ark_std::rand::thread_rng();
    let proof = Groth16::<Bn254>::create_proof_with_reduction_and_matrices(
        &pk.key, Fr::rand(&mut rng), Fr::rand(&mut rng), &lowered.m, cs.num_instance, cs.a.len(), &w,
    ).map_err(|_| ())?;
    let mut out: Vec<u8> = Vec::new();
    proof.serialize_uncompressed(&mut out).map_err(|_| ())?;
    Ok(out)
}

/// Proves a well-formed constraint system under the given key. A proof
/// that comes back is 256 bytes and deserializes, so verification of it
/// reaches a verdict.
pub fn groth16_prove(pk: &ProvingKeyBox, cs: &R1cs) -> (r: Result<Vec<u8>, ()>)
    requires
        cs.wf(),
    ensures
        r matches Ok(p) ==> p@.len() == 256 && spec_proof_decodes(p@),
{
    let m = matrices_of(cs);
    groth16_prove_lowered(pk, &m, cs)
}

/// Whether Groth16 accepts the given serialized verifying key, serialized
/// proof, and public inputs. Verification is deterministic in these three
/// values.
pub uninterp spec fn spec_groth16_accepts(vk: Seq<u8>, proof: Seq<u8>, inputs: Seq<u64>) -> bool;

/// Whether the bytes deserialize to a proof under the uncompressed
/// canonical encoding.
pub uninterp spec fn spec_proof_decodes(proof: Seq<u8>) -> bool;

/// The gamma_abc_g1 length of the verifying key the bytes deserialize to,
/// or nothing when they do not deserialize.
pub uninterp spec fn spec_vk_rows(vk: Seq<u8>) -> Option<nat>;

/// Relies on ark_groth16: VerifyingKey::deserialize_uncompressed and the
/// length of its gamma_abc_g1 vector — both pure functions of the bytes.
#[verifier::external_body]
pub fn groth16_vk_rows(vk: &Vec<u8>) -> (r: Option<usize>)
    ensures
        r matches Some(n) ==> spec_vk_rows(vk@) == Some(n as nat),
        r is Some <==> spec_vk_rows(vk@) is Some,
{
    VerifyingKey::<Bn254>::deserialize_uncompressed(&vk[..]).ok().map(|k| k.gamma_abc_g1.len())
}

/// Relies on ark_groth16: VerifyingKey/Proof deserialize_uncompressed,
/// prepare_verifying_key (which cannot fail), and verify_with_processed_vk
/// — all deterministic in the bytes and public inputs handed in. The call
/// succeeds exactly when the key deserializes, its gamma_abc_g1 length is
/// one more than the input count, and the proof deserializes.
#[verifier::external_body]
pub fn groth16_verify(vk: &Vec<u8>, proof: &Vec<u8>, inputs: &Vec<u64>) -> (r: Result<bool, ()>)
    ensures
        r matches Ok(b) ==> b == spec_groth16_accepts(vk@, proof@, inputs@),
        r is Ok <==> (spec_vk_rows(vk@) == Some((inputs@.len() + 1) as nat)
            && spec_proof_decodes(proof@)),
{
    let key = VerifyingKey::<Bn254>::deserialize_uncompressed(&vk[..]).map_err(|_| ())?;
    if inputs.len() + 1 != key.gamma_abc_g1.len() {
        return Err(());
    }
    let groth_proof = ark_groth16::Proof::<Bn254>::deserialize_uncompressed(&proof[..]).map_err(|_| ())?;
    let ins: Vec<Fr> = inputs.iter().map(|&u| Fr::from(u)).collect();
    let pvk = ark_groth16::prepare_verifying_key(&key);
    Groth16::<Bn254>::verify_with_processed_vk(&pvk, &ins, &groth_proof).map_err(|_| ())
}

} // verus!
