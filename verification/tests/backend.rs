use zk_relation::backend::verify;
use zk_relation::circuit::Circuit;
use zk_relation::failure::{SynthesisFailure, VerifyFailure};
use zk_relation::pipeline::{Action, Event, Stage, ZKPTest};
use zk_relation::scalar::Scalar;
use zk_relation::system::ConstraintSystem;

use ark_bls12_377::{Bls12_377, Fr};
use ark_ff::BigInt;
use ark_groth16::Groth16;
use ark_relations::r1cs::{ConstraintSynthesizer, ConstraintSystemRef, SynthesisError};
use ark_serialize::CanonicalSerialize;
use ark_snark::{CircuitSpecificSetupSNARK, SNARK};

struct Square(Circuit);

impl ConstraintSynthesizer<Fr> for Square {
    fn generate_constraints(self, cs: ConstraintSystemRef<Fr>) -> Result<(), SynthesisError> {
        let mut system = ConstraintSystem { handle: cs, variables: Vec::new() };
        self.0.generate_constraints(&mut system).map_err(|f| f.to_outside())
    }
}

fn fr(s: Scalar) -> Fr {
    Fr::from(BigInt::new([s.l0, s.l1, s.l2, s.l3]))
}

fn bytes(value: &impl CanonicalSerialize) -> Vec<u8> {
    let mut out = Vec::new();
    value.serialize_compressed(&mut out).unwrap();
    out
}

#[test]
fn verifier_accepts_the_public_input_proved_and_no_other() {
    let rng = &mut rand::thread_rng();
    let circuit = Circuit::from_witness(Scalar::from_u64(7));
    let (pk, vk) = Groth16::<Bls12_377>::setup(Square(circuit), rng).unwrap();
    let proof = Groth16::<Bls12_377>::prove(&pk, Square(circuit), rng).unwrap();
    let (vk, proof) = (bytes(&vk), bytes(&proof));
    assert_eq!(proof.len(), 192);
    assert_eq!(verify(&vk, &vec![Scalar::from_u64(49)], &proof), Ok(true));
    assert_eq!(verify(&vk, &vec![Scalar::from_u64(50)], &proof), Ok(false));
    assert_eq!(verify(&vk, &vec![Scalar::from_u64(7)], &proof), Ok(false));
    assert_eq!(verify(&vk, &circuit.public_inputs(), &proof), Ok(true));
}

#[test]
fn verifier_turns_away_what_it_cannot_read() {
    let rng = &mut rand::thread_rng();
    let circuit = Circuit::from_witness(Scalar::from_u64(7));
    let (pk, vk) = Groth16::<Bls12_377>::setup(Square(circuit), rng).unwrap();
    let proof = Groth16::<Bls12_377>::prove(&pk, Square(circuit), rng).unwrap();
    let (vk, proof) = (bytes(&vk), bytes(&proof));
    let inputs = vec![Scalar::from_u64(49)];
    assert_eq!(verify(&Vec::new(), &inputs, &proof), Err(VerifyFailure::Malformed));
    assert_eq!(verify(&vk, &inputs, &vec![0xff; 10]), Err(VerifyFailure::Malformed));
    let too_large = Scalar { l0: u64::MAX, l1: u64::MAX, l2: u64::MAX, l3: u64::MAX };
    assert_eq!(verify(&vk, &vec![too_large], &proof), Err(VerifyFailure::Malformed));
    assert_eq!(
        verify(&vk, &Vec::new(), &proof),
        Err(VerifyFailure::Backend(SynthesisFailure::MalformedVerifyingKey))
    );
    assert_eq!(
        verify(&vk, &vec![Scalar::from_u64(49), Scalar::from_u64(49)], &proof),
        Err(VerifyFailure::Backend(SynthesisFailure::MalformedVerifyingKey))
    );
}

#[test]
fn run_verifies_against_its_own_public_input() {
    let rng = &mut rand::thread_rng();
    let t = ZKPTest::with_witness(Scalar::from_u64(7));
    let (pk, vk) = Groth16::<Bls12_377>::setup(Square(t.circuit()), rng).unwrap();
    let proof = Groth16::<Bls12_377>::prove(&pk, Square(t.circuit()), rng).unwrap();
    assert_eq!(t.verify(&bytes(&vk), &bytes(&proof)), Event::Verified(true));
    let other = ZKPTest::with_witness(Scalar::from_u64(8));
    assert_eq!(other.verify(&bytes(&vk), &bytes(&proof)), Event::Verified(false));
    assert_eq!(t.verify(&bytes(&vk), &Vec::new()), Event::Malformed);
    let shape = ZKPTest::with_circuit(Circuit { a: None, a_square: None });
    assert_eq!(
        shape.verify(&bytes(&vk), &bytes(&proof)),
        Event::Failed(SynthesisFailure::MalformedVerifyingKey)
    );
}

#[test]
fn proof_verifies_against_its_public_input_only() {
    let rng = &mut rand::thread_rng();
    let circuit = Circuit::from_witness(Scalar::from_u64(7));
    let (pk, vk) = Groth16::<Bls12_377>::setup(Square(circuit), rng).unwrap();
    let proof = Groth16::<Bls12_377>::prove(&pk, Square(circuit), rng).unwrap();
    let inputs: Vec<Fr> = circuit.public_inputs().into_iter().map(fr).collect();
    assert_eq!(inputs, vec![Fr::from(49u64)]);
    assert_eq!(Groth16::<Bls12_377>::verify(&vk, &inputs, &proof), Ok(true));
    assert_eq!(Groth16::<Bls12_377>::verify(&vk, &[Fr::from(50u64)], &proof), Ok(false));
}

#[test]
fn keys_can_be_derived_from_the_shape_alone() {
    let rng = &mut rand::thread_rng();
    let shape = Circuit { a: None, a_square: None };
    let (pk, vk) = Groth16::<Bls12_377>::setup(Square(shape), rng).unwrap();
    let a = Scalar::random(rng);
    let circuit = Circuit::from_witness(a);
    let proof = Groth16::<Bls12_377>::prove(&pk, Square(circuit), rng).unwrap();
    let inputs: Vec<Fr> = circuit.public_inputs().into_iter().map(fr).collect();
    assert_eq!(inputs, vec![fr(a) * fr(a)]);
    assert_eq!(Groth16::<Bls12_377>::verify(&vk, &inputs, &proof), Ok(true));
}

#[test]
fn prover_needs_the_witness() {
    let rng = &mut rand::thread_rng();
    let shape = Circuit { a: None, a_square: Some(Scalar::from_u64(49)) };
    let (pk, _vk) = Groth16::<Bls12_377>::setup(Square(shape), rng).unwrap();
    let r = Groth16::<Bls12_377>::prove(&pk, Square(shape), rng);
    assert_eq!(r.err(), Some(SynthesisError::AssignmentMissing));
}

#[test]
fn whole_run_on_a_sampled_witness_succeeds() {
    let rng = &mut rand::thread_rng();
    let mut t = ZKPTest::sample(rng);
    let mut proving_key = None;
    let mut verifying_key = Vec::new();
    let mut proof = Vec::new();
    loop {
        let event = match t.next_action() {
            Action::LocalCheck => t.check_locally(),
            Action::Setup => match Groth16::<Bls12_377>::setup(Square(t.circuit()), rng) {
                Ok((pk, vk)) => {
                    proving_key = Some(pk);
                    verifying_key = bytes(&vk);
                    Event::KeysReady
                }
                Err(e) => Event::Failed(SynthesisFailure::from_outside(e)),
            },
            Action::Prove => {
                let pk = proving_key.as_ref().unwrap();
                match Groth16::<Bls12_377>::prove(pk, Square(t.circuit()), rng) {
                    Ok(p) => {
                        proof = bytes(&p);
                        assert_eq!(proof.len(), p.compressed_size());
                        Event::Proved(proof.len())
                    }
                    Err(e) => Event::Failed(SynthesisFailure::from_outside(e)),
                }
            }
            Action::Verify => t.verify(&verifying_key, &proof),
            Action::Finish | Action::Abort(_) => break,
        };
        t = t.step(event);
    }
    assert_eq!(t.stage, Stage::Done);
    assert_eq!(t.outcome(), Some(Ok(())));
    assert_eq!(t.num_constraints, Some(2));
    assert_eq!(t.proof_size, Some(192));
}
