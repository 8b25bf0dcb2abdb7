//! The stages of a proving run on the square relation, as a machine that is
//! told what each stage brought and says what to do next. Setup, proving and
//! verification are the backend's work and happen outside; the order of the
//! stages, and what ends a run, are decided here.

use crate::circuit::{CheckReport, Circuit};
use crate::backend::{all_canonical, values, verifier_answer, verify};
use crate::failure::{PipelineError, SynthesisFailure, VerifyFailure};
use crate::scalar::Scalar;
use rand::rngs::ThreadRng;
use vstd::prelude::*;

verus! {

/// Where a run stands.
#[derive(Clone, Copy, Debug, PartialEq, Eq, Structural)]
pub enum Stage {
    /// The values are sampled; the relation is to be checked locally.
    LocalCheck,
    /// The keys are to be derived.
    Setup,
    /// The proof is to be made.
    Prove,
    /// The proof is to be verified.
    Verify,
    /// The proof was accepted.
    Done,
    /// The run was abandoned.
    Failed(PipelineError),
}

/// What the stage in progress brought.
#[derive(Clone, Copy, Debug, PartialEq, Eq, Structural)]
pub enum Event {
    /// The local check ran.
    Checked(CheckReport),
    /// Setup gave a proving and a verifying key.
    KeysReady,
    /// The prover gave a proof whose compressed form has this many bytes.
    Proved(usize),
    /// The verifier gave its answer.
    Verified(bool),
    /// The stage failed.
    Failed(SynthesisFailure),
    /// The stage was handed what it could not read: bytes that do not
    /// decode, or limbs that stand for no field element.
    Malformed,
}

/// What is to be done next.
#[derive(Clone, Copy, Debug, PartialEq, Eq, Structural)]
pub enum Action {
    /// Check the relation on a constraint system of one's own.
    LocalCheck,
    /// Run the backend's setup on an instance of the circuit.
    Setup,
    /// Run the backend's prover on a second instance of the circuit.
    Prove,
    /// Run the backend's verifier on the public inputs and the proof.
    Verify,
    /// Stop: the run succeeded.
    Finish,
    /// Stop: the run failed.
    Abort(PipelineError),
}

/// The stage after `stage`, once `event` is reported. The four working
/// stages follow each other in one order; each takes the one event that
/// belongs to it, a failure ends the run, and so does any other event. A
/// run that has ended stays as it is.
pub open spec fn next_stage(stage: Stage, event: Event) -> Stage {
    match (stage, event) {
        (Stage::Done, _) => stage,
        (Stage::Failed(_), _) => stage,
        (_, Event::Failed(f)) => Stage::Failed(PipelineError::Stage(f)),
        (_, Event::Malformed) => Stage::Failed(PipelineError::Malformed),
        (Stage::LocalCheck, Event::Checked(report)) => if report.satisfied {
            Stage::Setup
        } else {
            Stage::Failed(PipelineError::Unsatisfied)
        },
        (Stage::Setup, Event::KeysReady) => Stage::Prove,
        (Stage::Prove, Event::Proved(_)) => Stage::Verify,
        (Stage::Verify, Event::Verified(accepted)) => if accepted {
            Stage::Done
        } else {
            Stage::Failed(PipelineError::VerificationFalse)
        },
        _ => Stage::Failed(PipelineError::OutOfOrder),
    }
}

/// The event that stands for an answer of the verifier.
pub open spec fn event_of_answer(answer: Result<bool, VerifyFailure>) -> Event {
    match answer {
        Ok(accepted) => Event::Verified(accepted),
        Err(VerifyFailure::Malformed) => Event::Malformed,
        Err(VerifyFailure::Backend(f)) => Event::Failed(f),
    }
}

/// What a run at `stage` asks for.
pub open spec fn action_of(stage: Stage) -> Action {
    match stage {
        Stage::LocalCheck => Action::LocalCheck,
        Stage::Setup => Action::Setup,
        Stage::Prove => Action::Prove,
        Stage::Verify => Action::Verify,
        Stage::Done => Action::Finish,
        Stage::Failed(e) => Action::Abort(e),
    }
}

/// The run has ended.
pub open spec fn terminal(stage: Stage) -> bool {
    stage is Done || stage is Failed
}

/// One proving run on the square relation: the values sampled for it, the
/// stage it has reached, and what it has to report.
#[derive(Clone, Copy, Debug)]
pub struct ZKPTest {
    /// The instance the run is about.
    pub circuit: Circuit,
    /// The stage reached.
    pub stage: Stage,
    /// The number of constraints, once the local check has run.
    pub num_constraints: Option<usize>,
    /// The size of the proof, once it is made.
    pub proof_size: Option<usize>,
}

impl ZKPTest {
    /// The run is about a complete instance with canonical values.
    pub open spec fn wf(&self) -> bool {
        self.circuit.wf() && self.circuit.complete()
    }

    /// A run on a witness drawn from `rng`, with the public input computed
    /// from it.
    pub fn sample(rng: &mut ThreadRng) -> (t: ZKPTest)
        ensures
            t.wf(),
            t.circuit.holds(),
            t.stage == Stage::LocalCheck,
            t.num_constraints is None,
            t.proof_size is None,
    {
        ZKPTest::with_witness(Scalar::random(rng))
    }

    /// A run on a given witness, with the public input computed from it.
    pub fn with_witness(a: Scalar) -> (t: ZKPTest)
        requires
            a.wf(),
        ensures
            t.wf(),
            t.circuit.a == Some(a),
            t.circuit.holds(),
            t.stage == Stage::LocalCheck,
            t.num_constraints is None,
            t.proof_size is None,
    {
        ZKPTest {
            circuit: Circuit::from_witness(a),
            stage: Stage::LocalCheck,
            num_constraints: None,
            proof_size: None,
        }
    }

    /// A run on a given instance, whether or not the relation holds of it.
    pub fn with_circuit(circuit: Circuit) -> (t: ZKPTest)
        ensures
            t.circuit == circuit,
            t.stage == Stage::LocalCheck,
            t.num_constraints is None,
            t.proof_size is None,
    {
        ZKPTest { circuit, stage: Stage::LocalCheck, num_constraints: None, proof_size: None }
    }

    /// A fresh instance of the circuit. Setup and the prover each consume
    /// one, so each stage asks for its own.
    pub fn circuit(&self) -> (c: Circuit)
        ensures
            c == self.circuit,
    {
        self.circuit
    }

    /// The public inputs to verify against.
    pub fn public_inputs(&self) -> (v: Vec<Scalar>)
        ensures
            v@ == match self.circuit.a_square {
                Some(s) => seq![s],
                None => Seq::<Scalar>::empty(),
            },
    {
        self.circuit.public_inputs()
    }

    /// What to do next.
    pub fn next_action(&self) -> (a: Action)
        ensures
            a == action_of(self.stage),
    {
        match self.stage {
            Stage::LocalCheck => Action::LocalCheck,
            Stage::Setup => Action::Setup,
            Stage::Prove => Action::Prove,
            Stage::Verify => Action::Verify,
            Stage::Done => Action::Finish,
            Stage::Failed(e) => Action::Abort(e),
        }
    }

    /// The local check, made here: the event to report for it. An instance
    /// with a value that is not canonical is turned away unchecked.
    pub fn check_locally(&self) -> (e: Event)
        ensures
            e == if !self.circuit.wf() {
                Event::Malformed
            } else if self.circuit.complete() {
                Event::Checked(
                    CheckReport { satisfied: self.circuit.holds(), num_constraints: 2 },
                )
            } else {
                Event::Failed(SynthesisFailure::AssignmentMissing)
            },
    {
        if !self.circuit.is_canonical() {
            return Event::Malformed;
        }
        match self.circuit.local_check() {
            Ok(report) => Event::Checked(report),
            Err(f) => Event::Failed(f),
        }
    }

    /// The event to report for an answer of the verifier.
    pub fn verified(answer: Result<bool, VerifyFailure>) -> (e: Event)
        ensures
            e == event_of_answer(answer),
    {
        match answer {
            Ok(accepted) => Event::Verified(accepted),
            Err(VerifyFailure::Malformed) => Event::Malformed,
            Err(VerifyFailure::Backend(f)) => Event::Failed(f),
        }
    }

    /// The verification, made here: the verifier is asked about the proof
    /// and the public inputs of the instance, and its answer is the event
    /// to report.
    pub fn verify(&self, vk: &Vec<u8>, proof: &Vec<u8>) -> (e: Event)
        ensures
            e == if self.circuit.a_square is Some && !self.circuit.a_square.unwrap().wf() {
                Event::Malformed
            } else {
                event_of_answer(
                    verifier_answer(
                        vk@,
                        match self.circuit.a_square {
                            Some(s) => seq![s@],
                            None => Seq::<nat>::empty(),
                        },
                        proof@,
                    ),
                )
            },
    {
        let inputs = self.public_inputs();
        proof {
            match self.circuit.a_square {
                Some(s) => {
                    assert(inputs@[0] == s);
                    assert(values(inputs@) =~= seq![s@]);
                    assert(all_canonical(inputs@) == s.wf());
                },
                None => {
                    assert(values(inputs@) =~= Seq::<nat>::empty());
                    assert(all_canonical(inputs@));
                },
            }
        }
        ZKPTest::verified(verify(vk, &inputs, proof))
    }

    /// Takes in what the stage in progress brought and moves on. The
    /// instance stays; the number of constraints and the size of the proof
    /// are kept when the stage that yields them reports.
    pub fn step(self, event: Event) -> (t: ZKPTest)
        ensures
            t.circuit == self.circuit,
            t.stage == next_stage(self.stage, event),
            t.num_constraints == match (self.stage, event) {
                (Stage::LocalCheck, Event::Checked(report)) => Some(report.num_constraints),
                _ => self.num_constraints,
            },
            t.proof_size == match (self.stage, event) {
                (Stage::Prove, Event::Proved(size)) => Some(size),
                _ => self.proof_size,
            },
    {
        let mut t = self;
        match (self.stage, event) {
            (Stage::Done, _) => {},
            (Stage::Failed(_), _) => {},
            (_, Event::Failed(f)) => {
                t.stage = Stage::Failed(PipelineError::Stage(f));
            },
            (_, Event::Malformed) => {
                t.stage = Stage::Failed(PipelineError::Malformed);
            },
            (Stage::LocalCheck, Event::Checked(report)) => {
                t.num_constraints = Some(report.num_constraints);
                if report.satisfied {
                    t.stage = Stage::Setup;
                } else {
                    t.stage = Stage::Failed(PipelineError::Unsatisfied);
                }
            },
            (Stage::Setup, Event::KeysReady) => {
                t.stage = Stage::Prove;
            },
            (Stage::Prove, Event::Proved(size)) => {
                t.proof_size = Some(size);
                t.stage = Stage::Verify;
            },
            (Stage::Verify, Event::Verified(accepted)) => {
                if accepted {
                    t.stage = Stage::Done;
                } else {
                    t.stage = Stage::Failed(PipelineError::VerificationFalse);
                }
            },
            _ => {
                t.stage = Stage::Failed(PipelineError::OutOfOrder);
            },
        }
        t
    }

    /// How the run ended: `None` while it is under way.
    pub fn outcome(&self) -> (r: Option<Result<(), PipelineError>>)
        ensures
            r == match self.stage {
                Stage::Done => Some(Ok::<(), PipelineError>(())),
                Stage::Failed(e) => Some(Err::<(), PipelineError>(e)),
                _ => None::<Result<(), PipelineError>>,
            },
    {
        match self.stage {
            Stage::Done => Some(Ok(())),
            Stage::Failed(e) => Some(Err(e)),
            _ => None,
        }
    }
}

/// A run that has ended stays where it is, whatever is reported to it.
pub proof fn lemma_ended_run_stays(stage: Stage, event: Event)
    requires
        terminal(stage),
    ensures
        next_stage(stage, event) == stage,
{
}

/// A failure reported to a run under way ends it with that failure: no stage
/// is retried and none is skipped.
pub proof fn lemma_failure_is_fatal(stage: Stage, f: SynthesisFailure)
    requires
        !terminal(stage),
    ensures
        next_stage(stage, Event::Failed(f)) == Stage::Failed(PipelineError::Stage(f)),
        next_stage(stage, Event::Malformed) == Stage::Failed(PipelineError::Malformed),
{
}

/// A run succeeds on exactly one course of events: the local check reports
/// the relation satisfied, setup gives keys, the prover gives a proof, and
/// the verifier accepts it.
pub proof fn lemma_only_course_to_success(e1: Event, e2: Event, e3: Event, e4: Event)
    ensures
        next_stage(next_stage(next_stage(next_stage(Stage::LocalCheck, e1), e2), e3), e4)
            is Done <==> {
            &&& e1 matches Event::Checked(report) && report.satisfied
            &&& e2 is KeysReady
            &&& e3 is Proved
            &&& e4 == Event::Verified(true)
        },
{
}

/// A run on an instance of which the relation holds passes its own local
/// check: the check reports it satisfied, with the two constraints of the
/// relation, and the run moves on to setup.
pub proof fn lemma_sound_instance_passes_check(circuit: Circuit)
    requires
        circuit.wf(),
        circuit.holds(),
    ensures
        next_stage(
            Stage::LocalCheck,
            Event::Checked(CheckReport { satisfied: circuit.holds(), num_constraints: 2 }),
        ) == Stage::Setup,
{
}

} // verus!
