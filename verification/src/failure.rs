//! Failures of constraint synthesis and of a proving run.

use ark_relations::r1cs::SynthesisError;
use vstd::prelude::*;

verus! {

/// `SynthesisError` of `ark_relations`, with its eight variants, none of
/// which holds data.
#[verifier::external_type_specification]
pub struct ExSynthesisError(SynthesisError);

/// What can go wrong while constraints are synthesised or while the proving
/// backend works: one variant for each condition the constraint-system layer
/// reports.
#[derive(Clone, Copy, Debug, PartialEq, Eq, Structural)]
pub enum SynthesisFailure {
    /// A variable was allocated although no constraint system was attached.
    MissingCS,
    /// A value needed for an assignment was absent.
    AssignmentMissing,
    /// A division by zero happened during synthesis.
    DivisionByZero,
    /// The constraint system built is unsatisfiable.
    Unsatisfiable,
    /// The polynomials of the system have too high a degree.
    PolynomialDegreeTooLarge,
    /// An identity element turned up in the reference string.
    UnexpectedIdentity,
    /// The verifying key is malformed.
    MalformedVerifyingKey,
    /// An auxiliary variable was left unconstrained.
    UnconstrainedVariable,
}

/// Why the verifier gave no answer.
#[derive(Clone, Copy, Debug, PartialEq, Eq, Structural)]
pub enum VerifyFailure {
    /// The key or the proof does not decode, or a public input is not
    /// canonical.
    Malformed,
    /// The verifier itself failed.
    Backend(SynthesisFailure),
}

/// How a proving run ends when it does not succeed.
#[derive(Clone, Copy, Debug, PartialEq, Eq, Structural)]
pub enum PipelineError {
    /// A stage failed mechanically: the synthesis or the backend reported it.
    Stage(SynthesisFailure),
    /// The local check found the relation violated by the sampled values.
    Unsatisfied,
    /// Every stage ran, and the proof was not accepted.
    VerificationFalse,
    /// A stage was handed what it could not read.
    Malformed,
    /// An outcome was reported that does not belong to the stage in progress.
    OutOfOrder,
}

/// The failure that stands for a condition reported by the constraint-system
/// layer.
pub open spec fn failure_of_spec(e: SynthesisError) -> SynthesisFailure {
    match e {
        SynthesisError::MissingCS => SynthesisFailure::MissingCS,
        SynthesisError::AssignmentMissing => SynthesisFailure::AssignmentMissing,
        SynthesisError::DivisionByZero => SynthesisFailure::DivisionByZero,
        SynthesisError::Unsatisfiable => SynthesisFailure::Unsatisfiable,
        SynthesisError::PolynomialDegreeTooLarge => SynthesisFailure::PolynomialDegreeTooLarge,
        SynthesisError::UnexpectedIdentity => SynthesisFailure::UnexpectedIdentity,
        SynthesisError::MalformedVerifyingKey => SynthesisFailure::MalformedVerifyingKey,
        SynthesisError::UnconstrainedVariable => SynthesisFailure::UnconstrainedVariable,
    }
}

impl SynthesisFailure {
    /// Takes over a condition reported by the constraint-system layer,
    /// variant for variant.
    pub fn from_outside(e: SynthesisError) -> (r: SynthesisFailure)
        ensures
            r == failure_of_spec(e),
    {
        match e {
            SynthesisError::MissingCS => SynthesisFailure::MissingCS,
            SynthesisError::AssignmentMissing => SynthesisFailure::AssignmentMissing,
            SynthesisError::DivisionByZero => SynthesisFailure::DivisionByZero,
            SynthesisError::Unsatisfiable => SynthesisFailure::Unsatisfiable,
            SynthesisError::PolynomialDegreeTooLarge => SynthesisFailure::PolynomialDegreeTooLarge,
            SynthesisError::UnexpectedIdentity => SynthesisFailure::UnexpectedIdentity,
            SynthesisError::MalformedVerifyingKey => SynthesisFailure::MalformedVerifyingKey,
            SynthesisError::UnconstrainedVariable => SynthesisFailure::UnconstrainedVariable,
        }
    }

    /// Hands the failure back to the constraint-system layer in its own
    /// vocabulary; `from_outside` undoes it.
    pub fn to_outside(self) -> (e: SynthesisError)
        ensures
            failure_of_spec(e) == self,
    {
        match self {
            SynthesisFailure::MissingCS => SynthesisError::MissingCS,
            SynthesisFailure::AssignmentMissing => SynthesisError::AssignmentMissing,
            SynthesisFailure::DivisionByZero => SynthesisError::DivisionByZero,
            SynthesisFailure::Unsatisfiable => SynthesisError::Unsatisfiable,
            SynthesisFailure::PolynomialDegreeTooLarge => SynthesisError::PolynomialDegreeTooLarge,
            SynthesisFailure::UnexpectedIdentity => SynthesisError::UnexpectedIdentity,
            SynthesisFailure::MalformedVerifyingKey => SynthesisError::MalformedVerifyingKey,
            SynthesisFailure::UnconstrainedVariable => SynthesisError::UnconstrainedVariable,
        }
    }
}

} // verus!
