use zk_relation::circuit::{CheckReport, Circuit};
use zk_relation::failure::{PipelineError, SynthesisFailure, VerifyFailure};
use zk_relation::pipeline::{Action, Event, Stage, ZKPTest};
use zk_relation::scalar::Scalar;

fn report(satisfied: bool) -> Event {
    Event::Checked(CheckReport { satisfied, num_constraints: 2 })
}

#[test]
fn run_starts_at_the_local_check() {
    let t = ZKPTest::with_witness(Scalar::from_u64(7));
    assert_eq!(t.stage, Stage::LocalCheck);
    assert_eq!(t.next_action(), Action::LocalCheck);
    assert_eq!(t.circuit().a, Some(Scalar::from_u64(7)));
    assert_eq!(t.circuit().a_square, Some(Scalar::from_u64(49)));
    assert_eq!(t.public_inputs(), vec![Scalar::from_u64(49)]);
    assert_eq!(t.num_constraints, None);
    assert_eq!(t.proof_size, None);
    assert_eq!(t.outcome(), None);
}

#[test]
fn sampled_run_holds_the_square_of_its_witness() {
    let t = ZKPTest::sample(&mut rand::thread_rng());
    let c = t.circuit();
    let a = c.a.unwrap();
    assert!(a.is_canonical());
    assert_eq!(c.a_square, Some(a.times(&a)));
    assert_eq!(t.stage, Stage::LocalCheck);
    assert_eq!(t.check_locally(), report(true));
}

#[test]
fn stages_follow_in_order() {
    let t = ZKPTest::with_witness(Scalar::from_u64(7));
    let t = t.step(t.check_locally());
    assert_eq!(t.stage, Stage::Setup);
    assert_eq!(t.next_action(), Action::Setup);
    assert_eq!(t.num_constraints, Some(2));
    let t = t.step(Event::KeysReady);
    assert_eq!(t.stage, Stage::Prove);
    assert_eq!(t.next_action(), Action::Prove);
    let t = t.step(Event::Proved(192));
    assert_eq!(t.stage, Stage::Verify);
    assert_eq!(t.next_action(), Action::Verify);
    assert_eq!(t.proof_size, Some(192));
    assert_eq!(t.outcome(), None);
    let t = t.step(Event::Verified(true));
    assert_eq!(t.stage, Stage::Done);
    assert_eq!(t.next_action(), Action::Finish);
    assert_eq!(t.outcome(), Some(Ok(())));
    assert_eq!(t.num_constraints, Some(2));
    assert_eq!(t.proof_size, Some(192));
    assert_eq!(t.circuit().a, Some(Scalar::from_u64(7)));
}

#[test]
fn rejected_proof_fails_the_run() {
    let t = ZKPTest::with_witness(Scalar::from_u64(7))
        .step(report(true))
        .step(Event::KeysReady)
        .step(Event::Proved(192))
        .step(Event::Verified(false));
    assert_eq!(t.stage, Stage::Failed(PipelineError::VerificationFalse));
    assert_eq!(t.next_action(), Action::Abort(PipelineError::VerificationFalse));
    assert_eq!(t.outcome(), Some(Err(PipelineError::VerificationFalse)));
}

#[test]
fn unsatisfied_relation_fails_the_run() {
    let c = Circuit { a: Some(Scalar::from_u64(7)), a_square: Some(Scalar::from_u64(50)) };
    let t = ZKPTest::with_circuit(c);
    assert_eq!(t.check_locally(), report(false));
    let t = t.step(t.check_locally());
    assert_eq!(t.stage, Stage::Failed(PipelineError::Unsatisfied));
    assert_eq!(t.num_constraints, Some(2));
}

#[test]
fn missing_witness_fails_the_run() {
    let c = Circuit { a: None, a_square: Some(Scalar::from_u64(49)) };
    let t = ZKPTest::with_circuit(c);
    assert_eq!(t.check_locally(), Event::Failed(SynthesisFailure::AssignmentMissing));
    let t = t.step(t.check_locally());
    assert_eq!(
        t.outcome(),
        Some(Err(PipelineError::Stage(SynthesisFailure::AssignmentMissing)))
    );
}

#[test]
fn failure_ends_any_stage() {
    let start = ZKPTest::with_witness(Scalar::from_u64(2));
    let stages = [
        start,
        start.step(report(true)),
        start.step(report(true)).step(Event::KeysReady),
        start.step(report(true)).step(Event::KeysReady).step(Event::Proved(1)),
    ];
    for t in stages {
        let failed = t.step(Event::Failed(SynthesisFailure::PolynomialDegreeTooLarge));
        assert_eq!(
            failed.stage,
            Stage::Failed(PipelineError::Stage(SynthesisFailure::PolynomialDegreeTooLarge))
        );
        assert_eq!(t.step(Event::Malformed).stage, Stage::Failed(PipelineError::Malformed));
    }
}

#[test]
fn event_of_another_stage_ends_the_run() {
    let start = ZKPTest::with_witness(Scalar::from_u64(2));
    assert_eq!(start.step(Event::KeysReady).stage, Stage::Failed(PipelineError::OutOfOrder));
    assert_eq!(start.step(Event::Verified(true)).stage, Stage::Failed(PipelineError::OutOfOrder));
    let at_setup = start.step(report(true));
    assert_eq!(at_setup.step(report(true)).stage, Stage::Failed(PipelineError::OutOfOrder));
    assert_eq!(at_setup.step(Event::Proved(3)).stage, Stage::Failed(PipelineError::OutOfOrder));
    let at_prove = at_setup.step(Event::KeysReady);
    assert_eq!(at_prove.step(Event::Verified(true)).stage, Stage::Failed(PipelineError::OutOfOrder));
    assert_eq!(at_prove.num_constraints, Some(2));
    assert_eq!(at_prove.step(Event::KeysReady).proof_size, None);
}

#[test]
fn ended_run_stays_as_it_is() {
    let done = ZKPTest::with_witness(Scalar::from_u64(2))
        .step(report(true))
        .step(Event::KeysReady)
        .step(Event::Proved(5))
        .step(Event::Verified(true));
    let failed = ZKPTest::with_witness(Scalar::from_u64(2)).step(Event::Verified(false));
    let events = [
        report(true),
        report(false),
        Event::KeysReady,
        Event::Proved(9),
        Event::Verified(true),
        Event::Verified(false),
        Event::Failed(SynthesisFailure::Unsatisfiable),
        Event::Malformed,
    ];
    for e in events {
        assert_eq!(done.step(e).stage, Stage::Done);
        assert_eq!(done.step(e).proof_size, Some(5));
        assert_eq!(failed.step(e).stage, Stage::Failed(PipelineError::OutOfOrder));
    }
}

#[test]
fn answer_of_the_verifier_becomes_an_event() {
    assert_eq!(ZKPTest::verified(Ok(true)), Event::Verified(true));
    assert_eq!(ZKPTest::verified(Ok(false)), Event::Verified(false));
    assert_eq!(ZKPTest::verified(Err(VerifyFailure::Malformed)), Event::Malformed);
    assert_eq!(
        ZKPTest::verified(Err(VerifyFailure::Backend(SynthesisFailure::UnexpectedIdentity))),
        Event::Failed(SynthesisFailure::UnexpectedIdentity)
    );
}

#[test]
fn instance_out_of_range_is_turned_away() {
    let too_large = Scalar { l0: u64::MAX, l1: u64::MAX, l2: u64::MAX, l3: u64::MAX };
    let t = ZKPTest::with_circuit(Circuit { a: Some(too_large), a_square: None });
    assert_eq!(t.check_locally(), Event::Malformed);
    let t = t.step(t.check_locally());
    assert_eq!(t.outcome(), Some(Err(PipelineError::Malformed)));
    assert_eq!(t.num_constraints, None);
    let u = ZKPTest::with_circuit(Circuit { a: None, a_square: Some(too_large) });
    assert_eq!(u.verify(&Vec::new(), &Vec::new()), Event::Malformed);
}
