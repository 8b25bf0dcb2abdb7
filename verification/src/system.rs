//! The constraint system that a relation is written into: a rank-1
//! constraint system of `ark_relations`, with the field variables of
//! `ark_r1cs_std` that were allocated in it.

use crate::failure::SynthesisFailure;
use crate::scalar::{field_mul, Scalar};
use ark_bls12_377::Fr;
use ark_ff::BigInt;
use ark_r1cs_std::alloc::AllocVar;
use ark_r1cs_std::eq::EqGadget;
use ark_r1cs_std::fields::fp::FpVar;
use ark_r1cs_std::fields::FieldVar;
use ark_relations::r1cs::ConstraintSystemRef;
use vstd::prelude::*;

verus! {

/// A constraint system under construction, and the variables allocated in
/// it so far, which are spoken of by their position in `variables`.
///
/// Verus sees nothing inside; the contracts below speak of it through
/// `well_formed`, `in_setup_mode`, `allocations` and `constraints`.
/// Who builds a value by hand, to adopt a system that a backend hands over,
/// passes a live handle and no variables: the functions here take that for
/// well-formed.
#[verifier::external_body]
pub struct ConstraintSystem {
    pub handle: ConstraintSystemRef<Fr>,
    pub variables: Vec<FpVar<Fr>>,
}

/// The handle refers to a live system that records its constraints, each
/// variable held was allocated in that system, each of its constraints was
/// enforced on variables held, and no allocation in it has failed.
pub uninterp spec fn well_formed(cs: ConstraintSystem) -> bool;

/// The system only records the shape of the relation: it keeps no values.
pub uninterp spec fn in_setup_mode(cs: ConstraintSystem) -> bool;

/// For each held variable, in the order of allocation: whether it belongs to
/// the public instance (else it is a private witness), and the value it
/// carries, `None` where the system keeps no values.
pub uninterp spec fn allocations(cs: ConstraintSystem) -> Seq<(bool, Option<nat>)>;

/// A private witness variable that carries `value`.
pub open spec fn witness(value: Option<nat>) -> (bool, Option<nat>) {
    (false, value)
}

/// A variable of the public instance that carries `value`.
pub open spec fn input(value: Option<nat>) -> (bool, Option<nat>) {
    (true, value)
}

/// A constraint as the contracts see it. The numbers are positions of held
/// variables.
pub enum Gate {
    /// The product of the first two variables is the third.
    Product(nat, nat, nat),
    /// The two variables are equal.
    Equal(nat, nat),
}

/// The constraints enforced so far, in order.
pub uninterp spec fn constraints(cs: ConstraintSystem) -> Seq<Gate>;

/// The value of the variable at `i`, where there is one.
pub open spec fn value_at(held: Seq<(bool, Option<nat>)>, i: nat) -> Option<nat> {
    if i < held.len() {
        held[i as int].1
    } else {
        None
    }
}

/// The values of the variables meet the constraint.
pub open spec fn met(gate: Gate, held: Seq<(bool, Option<nat>)>) -> bool {
    match gate {
        Gate::Product(left, right, out) => {
            &&& value_at(held, left) is Some
            &&& value_at(held, right) is Some
            &&& value_at(held, out) == Some(
                field_mul(value_at(held, left).unwrap(), value_at(held, right).unwrap()),
            )
        },
        Gate::Equal(left, right) => {
            &&& value_at(held, left) is Some
            &&& value_at(held, left) == value_at(held, right)
        },
    }
}

/// The values of the variables meet every constraint.
pub open spec fn all_met(gates: Seq<Gate>, held: Seq<(bool, Option<nat>)>) -> bool {
    forall|k: int| 0 <= k < gates.len() ==> met(#[trigger] gates[k], held)
}

/// What an allocation does to the variables held, given the value offered
/// and whether the variable is public.
pub open spec fn allocated(
    before: ConstraintSystem,
    after: ConstraintSystem,
    public: bool,
    value: Option<Scalar>,
) -> bool {
    &&& well_formed(after)
    &&& in_setup_mode(before) ==> allocations(after) == allocations(before).push((public, None))
    &&& !in_setup_mode(before) ==> value is Some && allocations(after) == allocations(
        before,
    ).push((public, Some(value.unwrap()@)))
}

/// The source of a value for an allocation: the value where there is one,
/// else the missing-assignment failure.
pub fn assigned(value: Option<Scalar>) -> (r: Result<Scalar, SynthesisFailure>)
    ensures
        r == match value {
            Some(v) => Ok::<Scalar, SynthesisFailure>(v),
            None => Err::<Scalar, SynthesisFailure>(SynthesisFailure::AssignmentMissing),
        },
{
    match value {
        Some(v) => Ok(v),
        None => Err(SynthesisFailure::AssignmentMissing),
    }
}

/// `ConstraintSystem::new_ref` of `ark_relations`: an empty system in proving
/// mode, which keeps values and records its constraints.
#[verifier::external_body]
pub(crate) fn fresh() -> (cs: ConstraintSystem)
    ensures
        well_formed(cs),
        !in_setup_mode(cs),
        allocations(cs) == Seq::<(bool, Option<nat>)>::empty(),
        constraints(cs) == Seq::<Gate>::empty(),
{
    ConstraintSystem {
        handle: ark_relations::r1cs::ConstraintSystem::new_ref(),
        variables: Vec::new(),
    }
}

/// `Vec::len` on the variables held.
#[verifier::external_body]
pub(crate) fn variable_count(cs: &ConstraintSystem) -> (n: usize)
    ensures
        n == allocations(*cs).len(),
{
    cs.variables.len()
}

/// `FpVar::new_witness` of `ark_r1cs_std`. In setup mode the source of the
/// value is never asked and the variable carries none. Otherwise the variable
/// carries the value offered, and the call fails with the source's failure
/// where none is offered. No constraint is added. After a failure nothing is
/// claimed of the system but its constraints and its mode.
#[verifier::external_body]
pub(crate) fn allocate_witness(cs: &mut ConstraintSystem, value: Option<Scalar>) -> (r: Result<
    (),
    SynthesisFailure,
>)
    requires
        well_formed(*old(cs)),
        value is Some ==> value.unwrap().wf(),
    ensures
        in_setup_mode(*final(cs)) == in_setup_mode(*old(cs)),
        constraints(*final(cs)) == constraints(*old(cs)),
        r is Ok <==> in_setup_mode(*old(cs)) || value is Some,
        r is Ok ==> allocated(*old(cs), *final(cs), false, value),
        r matches Err(e) ==> e == SynthesisFailure::AssignmentMissing,
{
    let v = FpVar::new_witness(cs.handle.clone(), || {
        assigned(value)
            .map(|s| Fr::from(BigInt::new([s.l0, s.l1, s.l2, s.l3])))
            .map_err(SynthesisFailure::to_outside)
    }).map_err(SynthesisFailure::from_outside)?;
    cs.variables.push(v);
    Ok(())
}

/// `FpVar::new_input` of `ark_r1cs_std`: as `allocate_witness`, for a
/// variable of the public instance.
#[verifier::external_body]
pub(crate) fn allocate_input(cs: &mut ConstraintSystem, value: Option<Scalar>) -> (r: Result<
    (),
    SynthesisFailure,
>)
    requires
        well_formed(*old(cs)),
        value is Some ==> value.unwrap().wf(),
    ensures
        in_setup_mode(*final(cs)) == in_setup_mode(*old(cs)),
        constraints(*final(cs)) == constraints(*old(cs)),
        r is Ok <==> in_setup_mode(*old(cs)) || value is Some,
        r is Ok ==> allocated(*old(cs), *final(cs), true, value),
        r matches Err(e) ==> e == SynthesisFailure::AssignmentMissing,
{
    let v = FpVar::new_input(cs.handle.clone(), || {
        assigned(value)
            .map(|s| Fr::from(BigInt::new([s.l0, s.l1, s.l2, s.l3])))
            .map_err(SynthesisFailure::to_outside)
    }).map_err(SynthesisFailure::from_outside)?;
    cs.variables.push(v);
    Ok(())
}

/// `FieldVar::square` of `ark_r1cs_std` on the variable at `i`: a new witness
/// variable, held last, that carries the square where values are kept, and
/// one constraint that binds it to the product of the variable with itself.
#[verifier::external_body]
pub(crate) fn square_variable(cs: &mut ConstraintSystem, i: usize) -> (r: Result<
    (),
    SynthesisFailure,
>)
    requires
        well_formed(*old(cs)),
        i < allocations(*old(cs)).len(),
        !in_setup_mode(*old(cs)) ==> allocations(*old(cs))[i as int].1 is Some,
    ensures
        r is Ok,
        well_formed(*final(cs)),
        in_setup_mode(*final(cs)) == in_setup_mode(*old(cs)),
        constraints(*final(cs)) == constraints(*old(cs)).push(
            Gate::Product(i as nat, i as nat, allocations(*old(cs)).len()),
        ),
        in_setup_mode(*old(cs)) ==> allocations(*final(cs)) == allocations(*old(cs)).push(
            witness(None),
        ),
        !in_setup_mode(*old(cs)) ==> allocations(*final(cs)) == allocations(*old(cs)).push(
            witness(
                Some(
                    field_mul(
                        allocations(*old(cs))[i as int].1.unwrap(),
                        allocations(*old(cs))[i as int].1.unwrap(),
                    ),
                ),
            ),
        ),
{
    let s = cs.variables[i].square().map_err(SynthesisFailure::from_outside)?;
    cs.variables.push(s);
    Ok(())
}

/// `EqGadget::enforce_equal` of `ark_r1cs_std` on the variables at `i` and
/// `j`: one constraint, that the two are equal. No variable is added.
#[verifier::external_body]
pub(crate) fn enforce_equal(cs: &mut ConstraintSystem, i: usize, j: usize) -> (r: Result<
    (),
    SynthesisFailure,
>)
    requires
        well_formed(*old(cs)),
        i < allocations(*old(cs)).len(),
        j < allocations(*old(cs)).len(),
    ensures
        r is Ok,
        well_formed(*final(cs)),
        in_setup_mode(*final(cs)) == in_setup_mode(*old(cs)),
        allocations(*final(cs)) == allocations(*old(cs)),
        constraints(*final(cs)) == constraints(*old(cs)).push(Gate::Equal(i as nat, j as nat)),
{
    cs.variables[i].enforce_equal(&cs.variables[j]).map_err(SynthesisFailure::from_outside)
}

/// `ConstraintSystemRef::is_satisfied` of `ark_relations`: whether the values
/// assigned meet every constraint; in setup mode, where there are no values,
/// the missing-assignment failure.
#[verifier::external_body]
pub(crate) fn is_satisfied(cs: &ConstraintSystem) -> (r: Result<bool, SynthesisFailure>)
    requires
        well_formed(*cs),
    ensures
        r == if in_setup_mode(*cs) {
            Err::<bool, SynthesisFailure>(SynthesisFailure::AssignmentMissing)
        } else {
            Ok::<bool, SynthesisFailure>(all_met(constraints(*cs), allocations(*cs)))
        },
{
    cs.handle.is_satisfied().map_err(SynthesisFailure::from_outside)
}

/// `ConstraintSystemRef::num_constraints` of `ark_relations`: how many
/// constraints were enforced so far.
#[verifier::external_body]
pub(crate) fn num_constraints(cs: &ConstraintSystem) -> (n: usize)
    requires
        well_formed(*cs),
    ensures
        n == constraints(*cs).len(),
{
    cs.handle.num_constraints()
}

} // verus!
