//! The verifier of the proving backend, Groth16 over BLS12-377, on keys and
//! proofs in their canonical compressed bytes.

use crate::failure::{SynthesisFailure, VerifyFailure};
use crate::scalar::Scalar;
use ark_bls12_377::{Bls12_377, Fr};
use ark_ff::BigInt;
use ark_groth16::{Groth16, Proof, VerifyingKey};
use ark_serialize::CanonicalDeserialize;
use ark_snark::SNARK;
use vstd::prelude::*;

verus! {

/// The numbers that the scalars stand for.
pub open spec fn values(inputs: Seq<Scalar>) -> Seq<nat> {
    inputs.map_values(|s: Scalar| s@)
}

/// Every scalar is canonical.
pub open spec fn all_canonical(inputs: Seq<Scalar>) -> bool {
    forall|i: int| 0 <= i < inputs.len() ==> (#[trigger] inputs[i]).wf()
}

/// What the backend's verifier answers for a verifying key, public inputs
/// and a proof: whether it accepts, or why it could not tell.
pub uninterp spec fn verifier_answer(vk: Seq<u8>, inputs: Seq<nat>, proof: Seq<u8>) -> Result<
    bool,
    VerifyFailure,
>;

/// `Groth16::verify` of `ark_groth16`, on a key and a proof decoded by
/// `CanonicalDeserialize::deserialize_compressed` of `ark_serialize`. The
/// answer is a function of the three arguments alone, and is named, not
/// stated. Bytes that do not decode give `Malformed`; a failure of the
/// verifier itself is handed on.
#[verifier::external_body]
pub(crate) fn groth16_verify(vk: &Vec<u8>, inputs: &Vec<Scalar>, proof: &Vec<u8>) -> (r: Result<
    bool,
    VerifyFailure,
>)
    requires
        all_canonical(inputs@),
    ensures
        r == verifier_answer(vk@, values(inputs@), proof@),
{
    let vk = VerifyingKey::<Bls12_377>::deserialize_compressed(&vk[..])
        .map_err(|_| VerifyFailure::Malformed)?;
    let proof = Proof::<Bls12_377>::deserialize_compressed(&proof[..])
        .map_err(|_| VerifyFailure::Malformed)?;
    let xs: Vec<Fr> =
        inputs.iter().map(|s| Fr::from(BigInt::new([s.l0, s.l1, s.l2, s.l3]))).collect();
    Groth16::<Bls12_377>::verify(&vk, &xs, &proof)
        .map_err(|e| VerifyFailure::Backend(SynthesisFailure::from_outside(e)))
}

/// Asks the backend's verifier whether `proof` shows the relation that `vk`
/// was derived for, of the public inputs given. Inputs that are not
/// canonical stand for no field element and are turned away as malformed.
pub fn verify(vk: &Vec<u8>, inputs: &Vec<Scalar>, proof: &Vec<u8>) -> (r: Result<
    bool,
    VerifyFailure,
>)
    ensures
        r == if all_canonical(inputs@) {
            verifier_answer(vk@, values(inputs@), proof@)
        } else {
            Err::<bool, VerifyFailure>(VerifyFailure::Malformed)
        },
{
    let mut i: usize = 0;
    while i < inputs.len()
        invariant
            i <= inputs.len(),
            forall|k: int| 0 <= k < i ==> (#[trigger] inputs@[k]).wf(),
        decreases inputs.len() - i,
    {
        if !inputs[i].is_canonical() {
            return Err(VerifyFailure::Malformed);
        }
        i += 1;
    }
    groth16_verify(vk, inputs, proof)
}

} // verus!
