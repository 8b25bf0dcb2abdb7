//! The square relation: knowledge of a secret `a` whose square is the
//! public `a_square`.

use crate::failure::SynthesisFailure;
use crate::scalar::{field_mul, lemma_view_injective, Scalar};
use crate::system::{
    all_met, allocate_input, allocate_witness, allocations, constraints, enforce_equal, fresh,
    in_setup_mode, input, is_satisfied, met, num_constraints, square_variable, variable_count,
    well_formed, witness, ConstraintSystem, Gate,
};
use vstd::prelude::*;

verus! {

/// One instance of the square relation. Each value may be absent: a system
/// in setup mode asks for none, a proving system needs both.
#[derive(Clone, Copy, Debug, PartialEq, Eq, Structural)]
pub struct Circuit {
    /// The witness.
    pub a: Option<Scalar>,
    /// The public input.
    pub a_square: Option<Scalar>,
}

/// What a local check reports of an instance.
#[derive(Clone, Copy, Debug, PartialEq, Eq, Structural)]
pub struct CheckReport {
    /// Whether the values meet every constraint.
    pub satisfied: bool,
    /// How many constraints the relation takes.
    pub num_constraints: usize,
}

/// The constraints of the relation, for a system that held `n` variables
/// before: the third variable added is the product of the first with
/// itself, and it equals the second.
pub open spec fn relation_gates(n: nat) -> Seq<Gate> {
    seq![Gate::Product(n, n, n + 2), Gate::Equal(n + 2, n + 1)]
}

impl Circuit {
    /// The values that are present are canonical.
    pub open spec fn wf(&self) -> bool {
        &&& self.a is Some ==> self.a.unwrap().wf()
        &&& self.a_square is Some ==> self.a_square.unwrap().wf()
    }

    /// Both values are present.
    pub open spec fn complete(&self) -> bool {
        self.a is Some && self.a_square is Some
    }

    /// The relation itself: the public input is the square of the witness.
    pub open spec fn holds(&self) -> bool {
        &&& self.complete()
        &&& field_mul(self.a.unwrap()@, self.a.unwrap()@) == self.a_square.unwrap()@
    }

    /// Whether the values that are present are canonical.
    pub fn is_canonical(&self) -> (r: bool)
        ensures
            r == self.wf(),
    {
        let a_fits = match self.a {
            Some(a) => a.is_canonical(),
            None => true,
        };
        let square_fits = match self.a_square {
            Some(s) => s.is_canonical(),
            None => true,
        };
        a_fits && square_fits
    }

    /// The variables of the relation with the values they carry: the
    /// witness, the public square, and the square computed in the system.
    /// In setup mode they carry nothing.
    pub open spec fn variables(&self, setup: bool) -> Seq<(bool, Option<nat>)> {
        if setup || !self.complete() {
            seq![witness(None), input(None), witness(None)]
        } else {
            seq![
                witness(Some(self.a.unwrap()@)),
                input(Some(self.a_square.unwrap()@)),
                witness(Some(field_mul(self.a.unwrap()@, self.a.unwrap()@))),
            ]
        }
    }

    /// The instance whose public input is computed from the witness.
    pub fn from_witness(a: Scalar) -> (c: Circuit)
        requires
            a.wf(),
        ensures
            c.a == Some(a),
            c.wf(),
            c.holds(),
    {
        Circuit { a: Some(a), a_square: Some(a.times(&a)) }
    }

    /// The public inputs of the instance, as a verifier is given them: the
    /// square alone, or nothing where it is absent.
    pub fn public_inputs(&self) -> (v: Vec<Scalar>)
        ensures
            v@ == match self.a_square {
                Some(s) => seq![s],
                None => Seq::<Scalar>::empty(),
            },
    {
        let mut v: Vec<Scalar> = Vec::new();
        match self.a_square {
            Some(s) => {
                v.push(s);
            },
            None => {},
        }
        v
    }

    /// Writes the relation into `cs`: the witness as a private variable, the
    /// square as a variable of the public instance, the square of the
    /// witness computed in the system as a further private variable, bound
    /// to the witness by a product constraint, and the constraint that the
    /// computed square equals the public one.
    ///
    /// In setup mode this succeeds whatever values are present, and the
    /// variables carry none. Otherwise it fails with the missing-assignment
    /// failure where a value is absent, adding no constraint; where both
    /// are present the variables carry them.
    pub fn generate_constraints(self, cs: &mut ConstraintSystem) -> (r: Result<
        (),
        SynthesisFailure,
    >)
        requires
            self.wf(),
            well_formed(*old(cs)),
        ensures
            in_setup_mode(*final(cs)) == in_setup_mode(*old(cs)),
            r is Ok <==> in_setup_mode(*old(cs)) || self.complete(),
            r is Err ==> {
                &&& r == Err::<(), SynthesisFailure>(SynthesisFailure::AssignmentMissing)
                &&& constraints(*final(cs)) == constraints(*old(cs))
            },
            r is Ok ==> {
                &&& well_formed(*final(cs))
                &&& constraints(*final(cs)) == constraints(*old(cs)) + relation_gates(
                    allocations(*old(cs)).len(),
                )
                &&& allocations(*final(cs)) == allocations(*old(cs)) + self.variables(
                    in_setup_mode(*old(cs)),
                )
            },
    {
        let a_var = variable_count(cs);
        match allocate_witness(cs, self.a) {
            Err(e) => {
                return Err(e);
            },
            Ok(()) => {},
        }
        let a_square_var = variable_count(cs);
        match allocate_input(cs, self.a_square) {
            Err(e) => {
                return Err(e);
            },
            Ok(()) => {},
        }
        let check_var = variable_count(cs);
        match square_variable(cs, a_var) {
            Err(e) => {
                return Err(e);
            },
            Ok(()) => {},
        }
        let r = enforce_equal(cs, check_var, a_square_var);
        proof {
            let n = allocations(*old(cs)).len();
            assert(constraints(*cs) =~= constraints(*old(cs)) + relation_gates(n));
            assert(allocations(*cs) =~= allocations(*old(cs)) + self.variables(
                in_setup_mode(*old(cs)),
            ));
        }
        r
    }

    /// Builds a constraint system of its own, writes the relation into it
    /// and reports whether the values meet it, with the number of
    /// constraints.
    pub fn local_check(self) -> (r: Result<CheckReport, SynthesisFailure>)
        requires
            self.wf(),
        ensures
            r == if self.complete() {
                Ok::<CheckReport, SynthesisFailure>(
                    CheckReport { satisfied: self.holds(), num_constraints: 2 },
                )
            } else {
                Err::<CheckReport, SynthesisFailure>(SynthesisFailure::AssignmentMissing)
            },
    {
        let mut cs = fresh();
        match self.generate_constraints(&mut cs) {
            Err(e) => {
                return Err(e);
            },
            Ok(()) => {},
        }
        let satisfied = match is_satisfied(&cs) {
            Err(e) => {
                return Err(e);
            },
            Ok(b) => b,
        };
        let n = num_constraints(&cs);
        proof {
            lemma_met_where_the_relation_holds(self, Seq::empty());
            assert(constraints(cs) =~= relation_gates(0));
            assert(allocations(cs) =~= Seq::empty() + self.variables(false));
        }
        Ok(CheckReport { satisfied, num_constraints: n })
    }
}

/// Written into a system that keeps values, whatever it held before, the
/// constraints of the relation are met by the values of its variables
/// exactly where the relation holds of the instance.
pub proof fn lemma_met_where_the_relation_holds(c: Circuit, held: Seq<(bool, Option<nat>)>)
    requires
        c.complete(),
    ensures
        all_met(relation_gates(held.len()), held + c.variables(false)) <==> c.holds(),
{
    let n = held.len();
    let gates = relation_gates(n);
    let after = held + c.variables(false);
    assert(after[n as int] == witness(Some(c.a.unwrap()@)));
    assert(after[n as int + 1] == input(Some(c.a_square.unwrap()@)));
    assert(after[n as int + 2] == witness(Some(field_mul(c.a.unwrap()@, c.a.unwrap()@))));
    assert(met(gates[0], after));
    assert(met(gates[1], after) == c.holds());
    if c.holds() {
        assert forall|k: int| 0 <= k < gates.len() implies met(#[trigger] gates[k], after) by {
            if k == 0 {
            } else {
                assert(k == 1);
            }
        }
    }
}

/// With the witness given, the relation holds of exactly one public input:
/// the square of the witness. So the local check of an instance reports it
/// satisfied where the public input is that square, and unsatisfied for any
/// other.
pub proof fn lemma_holds_of_the_square_alone(a: Scalar, a_square: Scalar)
    requires
        a.wf(),
        a_square.wf(),
    ensures
        (Circuit { a: Some(a), a_square: Some(a_square) }).holds() <==> a_square@ == field_mul(
            a@,
            a@,
        ),
        forall|other: Scalar|
            (Circuit { a: Some(a), a_square: Some(a_square) }).holds() && (Circuit {
                a: Some(a),
                a_square: Some(other),
            }).holds() ==> other == a_square,
{
    assert forall|other: Scalar|
        (Circuit { a: Some(a), a_square: Some(a_square) }).holds() && (Circuit {
            a: Some(a),
            a_square: Some(other),
        }).holds() implies other == a_square by {
        lemma_view_injective(other, a_square);
    }
}

} // verus!
