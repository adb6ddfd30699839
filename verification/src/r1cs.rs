//! The constraint-system builder: variables, linear combinations and
//! rank-1 constraints `A * B = C`, accumulated append-only.
//!
//! A builder runs in one of two modes.  In `Setup` mode only the constraint
//! shape matters and allocated values may be placeholders; in `Prove` mode
//! every allocation must carry a field element, so that the finished builder
//! holds a complete assignment.  The shape of a system — variable counts and
//! the constraints with their coefficient values — is the part that must be
//! identical between setup and proving.

use vstd::prelude::*;
use crate::field::{fadd, fmul, scalar_val, scalar_add, scalar_mul, scalar_from_u64, scalar_eq};

verus! {

/// A handle to one variable of a constraint system: the distinguished
/// constant one, a public input, or a private witness variable.
#[derive(Clone, Copy, PartialEq, Eq, Structural, Debug)]
pub enum Variable {
    One,
    Input(usize),
    Witness(usize),
}

/// One weighted summand of a linear combination.
#[derive(Clone, Copy)]
pub struct Term {
    pub var: Variable,
    pub coeff: bls12_381::Scalar,
}

/// A sparse weighted sum of variables.  A variable may occur several times;
/// its coefficients then accumulate in the sum.
#[derive(Clone)]
pub struct LinearCombination {
    pub terms: Vec<Term>,
}

/// One rank-1 constraint: under a satisfying assignment,
/// `eval(a) * eval(b) = eval(c)` in the field.
#[derive(Clone)]
pub struct Constraint {
    pub a: LinearCombination,
    pub b: LinearCombination,
    pub c: LinearCombination,
}

/// Whether a builder is discovering shape only or recording a full assignment.
#[derive(Clone, Copy, Debug)]
pub enum Mode {
    Setup,
    Prove,
}

/// Failure of circuit synthesis.
#[derive(Clone, Copy, PartialEq, Eq, Structural, Debug)]
pub enum SynthesisError {
    /// A `Prove`-mode allocation was given no value.
    AssignmentMissing,
}

/// The shape of one term: its variable and the field value of its coefficient.
pub open spec fn term_shape(t: Term) -> (Variable, nat) {
    (t.var, scalar_val(t.coeff))
}

/// The shape of a linear combination.
pub open spec fn lc_shape(terms: Seq<Term>) -> Seq<(Variable, nat)> {
    terms.map_values(|t: Term| term_shape(t))
}

/// The shape of one constraint.
#[verifier::ext_equal]
pub ghost struct ConstraintShape {
    pub a: Seq<(Variable, nat)>,
    pub b: Seq<(Variable, nat)>,
    pub c: Seq<(Variable, nat)>,
}

pub open spec fn constraint_shape(c: Constraint) -> ConstraintShape {
    ConstraintShape {
        a: lc_shape(c.a.terms@),
        b: lc_shape(c.b.terms@),
        c: lc_shape(c.c.terms@),
    }
}

/// The shape of a whole system: variable counts and constraint shapes.
/// Two synthesis runs of one circuit must agree on this, whatever the
/// witness values are.
#[verifier::ext_equal]
pub ghost struct SystemShape {
    pub num_inputs: nat,
    pub num_witness: nat,
    pub constraints: Seq<ConstraintShape>,
}

/// Does the variable refer only to slots below the given counts?
pub open spec fn var_in_range(v: Variable, ni: nat, nw: nat) -> bool {
    match v {
        Variable::One => true,
        Variable::Input(i) => (i as nat) < ni,
        Variable::Witness(i) => (i as nat) < nw,
    }
}

pub open spec fn shape_in_range(sh: Seq<(Variable, nat)>, ni: nat, nw: nat) -> bool {
    forall|i: int| 0 <= i < sh.len() ==> var_in_range(#[trigger] sh[i].0, ni, nw)
}

pub open spec fn lc_in_range(terms: Seq<Term>, ni: nat, nw: nat) -> bool {
    shape_in_range(lc_shape(terms), ni, nw)
}

pub open spec fn constraint_in_range(c: Constraint, ni: nat, nw: nat) -> bool {
    &&& lc_in_range(c.a.terms@, ni, nw)
    &&& lc_in_range(c.b.terms@, ni, nw)
    &&& lc_in_range(c.c.terms@, ni, nw)
}

/// The value a variable takes under an assignment, as a field value.
pub open spec fn var_val(v: Variable, ins: Seq<nat>, wit: Seq<nat>) -> nat {
    match v {
        Variable::One => 1,
        Variable::Input(i) => ins[i as int],
        Variable::Witness(i) => wit[i as int],
    }
}

/// The field value of a linear combination under an assignment: the sum of
/// `coefficient * variable value` over all terms, in the field.
pub open spec fn lc_val(sh: Seq<(Variable, nat)>, ins: Seq<nat>, wit: Seq<nat>) -> nat
    decreases sh.len(),
{
    if sh.len() == 0 {
        0
    } else {
        fadd(
            lc_val(sh.drop_last(), ins, wit),
            fmul(sh.last().1, var_val(sh.last().0, ins, wit)),
        )
    }
}

/// Does the constraint hold under the assignment?
pub open spec fn shape_satisfied(c: ConstraintShape, ins: Seq<nat>, wit: Seq<nat>) -> bool {
    fmul(lc_val(c.a, ins, wit), lc_val(c.b, ins, wit)) == lc_val(c.c, ins, wit)
}

/// The constraint-system builder.  State only grows: variables and
/// constraints are appended and never mutated or removed.
pub struct ConstraintSystem {
    pub mode: Mode,
    pub inputs: Vec<Option<bls12_381::Scalar>>,
    pub witness: Vec<Option<bls12_381::Scalar>>,
    pub constraints: Vec<Constraint>,
}

impl ConstraintSystem {
    pub open spec fn num_inputs(self) -> nat {
        self.inputs@.len()
    }

    pub open spec fn num_witness(self) -> nat {
        self.witness@.len()
    }

    /// Every allocated variable carries a value.
    pub open spec fn assigned(self) -> bool {
        &&& forall|i: int| 0 <= i < self.inputs@.len() ==> (#[trigger] self.inputs@[i]) is Some
        &&& forall|i: int| 0 <= i < self.witness@.len() ==> (#[trigger] self.witness@[i]) is Some
    }

    /// Well-formedness: constraints refer only to allocated variables, and a
    /// `Prove`-mode builder holds a complete assignment.
    pub open spec fn wf(self) -> bool {
        &&& forall|i: int| 0 <= i < self.constraints@.len()
                ==> constraint_in_range(#[trigger] self.constraints@[i], self.num_inputs(), self.num_witness())
        &&& self.mode is Prove ==> self.assigned()
    }

    /// The public-input values, in allocation order.
    pub open spec fn input_vals(self) -> Seq<nat> {
        self.inputs@.map_values(|o: Option<bls12_381::Scalar>| scalar_val(o.unwrap()))
    }

    /// The witness values, in allocation order.
    pub open spec fn witness_vals(self) -> Seq<nat> {
        self.witness@.map_values(|o: Option<bls12_381::Scalar>| scalar_val(o.unwrap()))
    }

    pub open spec fn shape(self) -> SystemShape {
        SystemShape {
            num_inputs: self.num_inputs(),
            num_witness: self.num_witness(),
            constraints: self.constraints@.map_values(|c: Constraint| constraint_shape(c)),
        }
    }

    /// Does the recorded assignment satisfy every constraint?
    pub open spec fn satisfied(self) -> bool {
        forall|i: int| 0 <= i < self.constraints@.len()
            ==> shape_satisfied(
                    constraint_shape(#[trigger] self.constraints@[i]),
                    self.input_vals(),
                    self.witness_vals(),
                )
    }

    /// A fresh, empty builder.
    pub fn new(mode: Mode) -> (r: Self)
        ensures
            r.mode == mode,
            r.num_inputs() == 0,
            r.num_witness() == 0,
            r.constraints@.len() == 0,
            r.wf(),
    {
        ConstraintSystem {
            mode,
            inputs: Vec::new(),
            witness: Vec::new(),
            constraints: Vec::new(),
        }
    }

    /// Allocate a private witness variable.  In `Setup` mode the value is a
    /// placeholder and may be absent; in `Prove` mode an absent value is an
    /// allocation error and the builder is left unchanged.  The label is
    /// diagnostic only and never affects shape or values.
    pub fn allocate_private(&mut self, _label: &str, value: Option<bls12_381::Scalar>) -> (r: Result<Variable, SynthesisError>)
        requires
            old(self).wf(),
        ensures
            final(self).wf(),
            final(self).mode == old(self).mode,
            final(self).inputs == old(self).inputs,
            final(self).constraints == old(self).constraints,
            (old(self).mode is Prove && value is None) ==> {
                &&& r == Err::<Variable, SynthesisError>(SynthesisError::AssignmentMissing)
                &&& *final(self) == *old(self)
            },
            (old(self).mode is Setup || value is Some) ==> {
                &&& r == Ok::<Variable, SynthesisError>(Variable::Witness(old(self).witness@.len() as usize))
                &&& final(self).witness@ == old(self).witness@.push(value)
            },
    {
        match (self.mode, &value) {
            (Mode::Prove, Option::None) => Err(SynthesisError::AssignmentMissing),
            _ => {
                let idx = self.witness.len();
                self.witness.push(value);
                proof {
                    lemma_wf_grows(*old(self), *self);
                }
                Ok(Variable::Witness(idx))
            }
        }
    }

    /// Allocate a public input variable.  Public inputs are exposed to the
    /// verifier in allocation order.  Value handling is as for
    /// `allocate_private`; the label is diagnostic only.
    pub fn allocate_public_input(&mut self, _label: &str, value: Option<bls12_381::Scalar>) -> (r: Result<Variable, SynthesisError>)
        requires
            old(self).wf(),
        ensures
            final(self).wf(),
            final(self).mode == old(self).mode,
            final(self).witness == old(self).witness,
            final(self).constraints == old(self).constraints,
            (old(self).mode is Prove && value is None) ==> {
                &&& r == Err::<Variable, SynthesisError>(SynthesisError::AssignmentMissing)
                &&& *final(self) == *old(self)
            },
            (old(self).mode is Setup || value is Some) ==> {
                &&& r == Ok::<Variable, SynthesisError>(Variable::Input(old(self).inputs@.len() as usize))
                &&& final(self).inputs@ == old(self).inputs@.push(value)
            },
    {
        match (self.mode, &value) {
            (Mode::Prove, Option::None) => Err(SynthesisError::AssignmentMissing),
            _ => {
                let idx = self.inputs.len();
                self.inputs.push(value);
                proof {
                    lemma_wf_grows(*old(self), *self);
                }
                Ok(Variable::Input(idx))
            }
        }
    }

    /// Append the constraint `a * b = c`.  The linear combinations must refer
    /// only to variables of this builder; nothing is ever removed again.  The
    /// label is diagnostic only.
    pub fn enforce(&mut self, _label: &str, a: LinearCombination, b: LinearCombination, c: LinearCombination)
        requires
            old(self).wf(),
            lc_in_range(a.terms@, old(self).num_inputs(), old(self).num_witness()),
            lc_in_range(b.terms@, old(self).num_inputs(), old(self).num_witness()),
            lc_in_range(c.terms@, old(self).num_inputs(), old(self).num_witness()),
        ensures
            final(self).wf(),
            final(self).mode == old(self).mode,
            final(self).inputs == old(self).inputs,
            final(self).witness == old(self).witness,
            final(self).constraints@ == old(self).constraints@.push((Constraint { a, b, c })),
    {
        self.constraints.push(Constraint { a, b, c });
    }
}

impl ConstraintSystem {
    /// Evaluate a linear combination under this builder's assignment.
    pub fn eval_lc(&self, lc: &LinearCombination) -> (r: bls12_381::Scalar)
        requires
            self.wf(),
            self.mode is Prove,
            lc_in_range(lc.terms@, self.num_inputs(), self.num_witness()),
        ensures
            scalar_val(r) == lc_val(lc_shape(lc.terms@), self.input_vals(), self.witness_vals()),
    {
        let ghost sh = lc_shape(lc.terms@);
        let mut acc = scalar_from_u64(0);
        let mut i: usize = 0;
        assert(sh.take(0) =~= Seq::<(Variable, nat)>::empty());
        while i < lc.terms.len()
            invariant
                i <= lc.terms.len(),
                self.wf(),
                self.mode is Prove,
                lc_in_range(lc.terms@, self.num_inputs(), self.num_witness()),
                sh == lc_shape(lc.terms@),
                scalar_val(acc) == lc_val(sh.take(i as int), self.input_vals(), self.witness_vals()),
            decreases lc.terms.len() - i,
        {
            proof {
                assert(sh[i as int] == term_shape(lc.terms@[i as int]));
                assert(var_in_range(sh[i as int].0, self.num_inputs(), self.num_witness()));
            }
            let t = &lc.terms[i];
            let vv: bls12_381::Scalar = match t.var {
                Variable::One => scalar_from_u64(1),
                Variable::Input(j) => {
                    let o = self.inputs[j];
                    o.unwrap()
                }
                Variable::Witness(j) => {
                    let o = self.witness[j];
                    o.unwrap()
                }
            };
            proof {
                assert(scalar_val(vv) == var_val(sh[i as int].0, self.input_vals(), self.witness_vals()));
            }
            let prod = scalar_mul(&t.coeff, &vv);
            acc = scalar_add(&acc, &prod);
            proof {
                assert(sh.take(i + 1).drop_last() =~= sh.take(i as int));
                assert(sh.take(i + 1).last() == sh[i as int]);
            }
            i = i + 1;
        }
        assert(sh.take(lc.terms@.len() as int) =~= sh);
        acc
    }

    /// Check the recorded assignment against every constraint:
    /// `eval(a) * eval(b) = eval(c)` must hold in the field for each.
    pub fn is_satisfied(&self) -> (r: bool)
        requires
            self.wf(),
            self.mode is Prove,
        ensures
            r == self.satisfied(),
    {
        let mut i: usize = 0;
        while i < self.constraints.len()
            invariant
                i <= self.constraints.len(),
                self.wf(),
                self.mode is Prove,
                forall|j: int| 0 <= j < i ==> shape_satisfied(
                    constraint_shape(#[trigger] self.constraints@[j]),
                    self.input_vals(),
                    self.witness_vals(),
                ),
            decreases self.constraints.len() - i,
        {
            let c = &self.constraints[i];
            let ea = self.eval_lc(&c.a);
            let eb = self.eval_lc(&c.b);
            let ec = self.eval_lc(&c.c);
            let prod = scalar_mul(&ea, &eb);
            if !scalar_eq(&prod, &ec) {
                return false;
            }
            i = i + 1;
        }
        true
    }

    /// Compare the shapes of two systems: variable counts and every
    /// constraint, with coefficients compared by field value.
    pub fn same_shape(&self, other: &ConstraintSystem) -> (r: bool)
        ensures
            r == (self.shape() == other.shape()),
    {
        if self.inputs.len() != other.inputs.len()
            || self.witness.len() != other.witness.len()
            || self.constraints.len() != other.constraints.len()
        {
            proof {
                assert(self.shape().constraints.len() == self.constraints@.len());
                assert(other.shape().constraints.len() == other.constraints@.len());
            }
            return false;
        }
        let mut i: usize = 0;
        while i < self.constraints.len()
            invariant
                i <= self.constraints.len(),
                self.constraints@.len() == other.constraints@.len(),
                self.num_inputs() == other.num_inputs(),
                self.num_witness() == other.num_witness(),
                forall|j: int| 0 <= j < i ==> constraint_shape(#[trigger] self.constraints@[j])
                    == constraint_shape(other.constraints@[j]),
            decreases self.constraints.len() - i,
        {
            if !same_constraint(&self.constraints[i], &other.constraints[i]) {
                proof {
                    assert(self.shape().constraints[i as int] != other.shape().constraints[i as int]);
                }
                return false;
            }
            i = i + 1;
        }
        proof {
            assert(self.shape().constraints =~= other.shape().constraints);
            assert(self.shape() =~= other.shape());
        }
        true
    }
}

/// Compare two linear combinations term by term: same variables in the same
/// order, with coefficients of equal field value.
fn same_lc(a: &LinearCombination, b: &LinearCombination) -> (r: bool)
    ensures
        r == (lc_shape(a.terms@) == lc_shape(b.terms@)),
{
    if a.terms.len() != b.terms.len() {
        proof {
            assert(lc_shape(a.terms@).len() != lc_shape(b.terms@).len());
        }
        return false;
    }
    let mut i: usize = 0;
    while i < a.terms.len()
        invariant
            i <= a.terms.len(),
            a.terms@.len() == b.terms@.len(),
            forall|j: int| 0 <= j < i ==> lc_shape(a.terms@)[j] == lc_shape(b.terms@)[j],
        decreases a.terms.len() - i,
    {
        let ta = &a.terms[i];
        let tb = &b.terms[i];
        if !(ta.var == tb.var) || !scalar_eq(&ta.coeff, &tb.coeff) {
            proof {
                assert(lc_shape(a.terms@)[i as int] == term_shape(a.terms@[i as int]));
                assert(lc_shape(b.terms@)[i as int] == term_shape(b.terms@[i as int]));
                assert(lc_shape(a.terms@)[i as int] != lc_shape(b.terms@)[i as int]);
            }
            return false;
        }
        proof {
            assert(lc_shape(a.terms@)[i as int] == term_shape(a.terms@[i as int]));
            assert(lc_shape(b.terms@)[i as int] == term_shape(b.terms@[i as int]));
        }
        i = i + 1;
    }
    proof {
        assert(lc_shape(a.terms@) =~= lc_shape(b.terms@));
    }
    true
}

/// Compare two constraints by shape.
fn same_constraint(a: &Constraint, b: &Constraint) -> (r: bool)
    ensures
        r == (constraint_shape(*a) == constraint_shape(*b)),
{
    let r = same_lc(&a.a, &b.a) && same_lc(&a.b, &b.b) && same_lc(&a.c, &b.c);
    proof {
        if r {
            assert(constraint_shape(*a) =~= constraint_shape(*b));
        }
    }
    r
}

/// A linear combination reads only the slots its shape names, so its value
/// does not change when the assignment is extended with further variables.
pub proof fn lemma_lc_val_prefix(
    sh: Seq<(Variable, nat)>,
    ins1: Seq<nat>,
    wit1: Seq<nat>,
    ins2: Seq<nat>,
    wit2: Seq<nat>,
)
    requires
        shape_in_range(sh, ins1.len(), wit1.len()),
        ins1.is_prefix_of(ins2),
        wit1.is_prefix_of(wit2),
    ensures
        lc_val(sh, ins2, wit2) == lc_val(sh, ins1, wit1),
    decreases sh.len(),
{
    if sh.len() > 0 {
        assert(shape_in_range(sh.drop_last(), ins1.len(), wit1.len())) by {
            assert forall|i: int| 0 <= i < sh.drop_last().len()
                implies var_in_range(#[trigger] sh.drop_last()[i].0, ins1.len(), wit1.len()) by {
                assert(sh.drop_last()[i] == sh[i]);
            }
        }
        lemma_lc_val_prefix(sh.drop_last(), ins1, wit1, ins2, wit2);
        let v = sh.last().0;
        assert(var_in_range(v, ins1.len(), wit1.len()));
        match v {
            Variable::One => {}
            Variable::Input(i) => {
                assert(ins2.take(ins1.len() as int) == ins1);
                assert(ins1[i as int] == ins2.take(ins1.len() as int)[i as int]);
            }
            Variable::Witness(i) => {
                assert(wit2.take(wit1.len() as int) == wit1);
                assert(wit1[i as int] == wit2.take(wit1.len() as int)[i as int]);
            }
        }
    }
}

/// Growing the variable vectors of a well-formed builder, while keeping mode
/// and constraints, keeps it well-formed.
proof fn lemma_wf_grows(pre: ConstraintSystem, post: ConstraintSystem)
    requires
        pre.wf(),
        post.mode == pre.mode,
        post.constraints == pre.constraints,
        pre.num_inputs() <= post.num_inputs(),
        pre.num_witness() <= post.num_witness(),
        post.mode is Prove ==> post.assigned(),
    ensures
        post.wf(),
{
    assert forall|i: int| 0 <= i < post.constraints@.len()
        implies constraint_in_range(#[trigger] post.constraints@[i], post.num_inputs(), post.num_witness()) by {
        assert(constraint_in_range(pre.constraints@[i], pre.num_inputs(), pre.num_witness()));
    }
}

impl LinearCombination {
    /// The empty sum.
    pub fn new() -> (r: Self)
        ensures
            r.terms@.len() == 0,
    {
        LinearCombination { terms: Vec::new() }
    }

    /// Append one weighted summand.
    pub fn add_term(&mut self, var: Variable, coeff: bls12_381::Scalar)
        ensures
            final(self).terms@ == old(self).terms@.push((Term { var, coeff })),
    {
        self.terms.push(Term { var, coeff });
    }
}

} // verus!
