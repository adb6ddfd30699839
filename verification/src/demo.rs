//! The demonstration circuit `out = x^3 + x + 5`.
//!
//! Synthesis allocates witness variables for `x`, `x^2`, `x^3`, `x + x^3` and
//! the output, enforces the four rank-1 constraints relating them, exposes
//! the output as a public input, and enforces a fifth constraint tying that
//! public input to the output wire — without it, no constraint would relate
//! the public value to the computation at all.  The constraint shape it
//! appends is a function of the builder's prior shape alone; only the
//! recorded values depend on the witness.

use vstd::prelude::*;
use vstd::arithmetic::div_mod::{lemma_small_mod, lemma_add_mod_noop, lemma_mul_mod_noop_general};
use crate::field::{field_modulus, fadd, fmul, scalar_val, scalar_add, scalar_mul, scalar_from_u64};
use crate::circuit::Circuit;
use crate::r1cs::{
    ConstraintSystem, LinearCombination, Variable, Mode, SynthesisError, ConstraintShape,
    SystemShape, Constraint, lc_shape, lc_val, var_val, shape_satisfied, constraint_shape,
    constraint_in_range, lemma_lc_val_prefix,
};

verus! {

/// The circuit: one private witness `x`, one public output `x^3 + x + 5`.
/// In `Setup` mode the witness may be absent; only the shape is produced.
pub struct DemoCircuit {
    pub x: Option<bls12_381::Scalar>,
}

/// The five constraint shapes the demo circuit appends to a builder that
/// already holds `ni` public inputs and `nw` witness variables.  The last
/// one ties the freshly allocated public input to the output wire, so that
/// only the computed output value can satisfy the system.
pub open spec fn demo_constraint_shapes(ni: nat, nw: nat) -> Seq<ConstraintShape> {
    let x = Variable::Witness(nw as usize);
    let sym_1 = Variable::Witness((nw + 1) as usize);
    let y = Variable::Witness((nw + 2) as usize);
    let sym_2 = Variable::Witness((nw + 3) as usize);
    let out = Variable::Witness((nw + 4) as usize);
    let out_input = Variable::Input(ni as usize);
    seq![
        (ConstraintShape { a: seq![(x, 1nat)], b: seq![(x, 1nat)], c: seq![(sym_1, 1nat)] }),
        (ConstraintShape { a: seq![(sym_1, 1nat)], b: seq![(x, 1nat)], c: seq![(y, 1nat)] }),
        (ConstraintShape {
            a: seq![(x, 1nat), (y, 1nat)],
            b: seq![(Variable::One, 1nat)],
            c: seq![(sym_2, 1nat)],
        }),
        (ConstraintShape {
            a: seq![(sym_2, 1nat), (Variable::One, 5nat)],
            b: seq![(Variable::One, 1nat)],
            c: seq![(out, 1nat)],
        }),
        (ConstraintShape {
            a: seq![(out, 1nat)],
            b: seq![(Variable::One, 1nat)],
            c: seq![(out_input, 1nat)],
        }),
    ]
}

/// What synthesizing the demo circuit does to a system's shape: five witness
/// variables, one public input and five constraints are appended.  The result
/// depends on the prior shape alone, never on the witness value.
pub open spec fn demo_shape_after(pre: SystemShape) -> SystemShape {
    SystemShape {
        num_inputs: pre.num_inputs + 1,
        num_witness: pre.num_witness + 5,
        constraints: pre.constraints + demo_constraint_shapes(pre.num_inputs, pre.num_witness),
    }
}

/// The witness values the demo circuit records for witness value `x`, in
/// allocation order: `x`, `x^2`, `x^3`, `x + x^3`, `x^3 + x + 5`.
pub open spec fn demo_witness_vals(x: nat) -> Seq<nat> {
    let sym_1 = fmul(x, x);
    let y = fmul(sym_1, x);
    let sym_2 = fadd(x, y);
    let out = fadd(sym_2, 5);
    seq![x, sym_1, y, sym_2, out]
}

/// The public output value of the demo circuit for witness value `x`.
pub open spec fn demo_output(x: nat) -> nat {
    fadd(fadd(x, fmul(fmul(x, x), x)), 5)
}

/// Shape determinism: two synthesis runs over builders of equal shape end in
/// equal shapes, whatever witness values the runs carry — the witness enters
/// `demo_shape_after` nowhere.
pub proof fn lemma_shape_determinism(pre1: SystemShape, pre2: SystemShape)
    requires
        pre1 == pre2,
    ensures
        demo_shape_after(pre1) == demo_shape_after(pre2),
{
}

/// The demonstration scenario: for witness value 3 the output value is 35.
pub proof fn lemma_demo_output_three()
    ensures
        demo_output(3) == 35,
{
    assert(field_modulus() > 35);
    lemma_small_mod(9, field_modulus());
    lemma_small_mod(27, field_modulus());
    lemma_small_mod(30, field_modulus());
    lemma_small_mod(35, field_modulus());
}

/// The value of a one-term linear combination.
proof fn lemma_lc_val_single(v: Variable, coeff: nat, ins: Seq<nat>, wit: Seq<nat>)
    ensures
        lc_val(seq![(v, coeff)], ins, wit) == fmul(coeff, var_val(v, ins, wit)),
{
    let sh = seq![(v, coeff)];
    let e = Seq::<(Variable, nat)>::empty();
    assert(lc_val(e, ins, wit) == 0);
    assert(sh.drop_last() =~= e);
    assert(sh.last() == (v, coeff));
    assert(lc_val(sh, ins, wit) == fadd(0, fmul(coeff, var_val(v, ins, wit))));
    assert(field_modulus() > 0);
    vstd::arithmetic::div_mod::lemma_mod_bound(
        (coeff * var_val(v, ins, wit)) as int,
        field_modulus() as int,
    );
    lemma_small_mod(fmul(coeff, var_val(v, ins, wit)), field_modulus());
}

/// The value of a two-term linear combination.
proof fn lemma_lc_val_pair(
    v1: Variable,
    c1: nat,
    v2: Variable,
    c2: nat,
    ins: Seq<nat>,
    wit: Seq<nat>,
)
    ensures
        lc_val(seq![(v1, c1), (v2, c2)], ins, wit)
            == fadd(fmul(c1, var_val(v1, ins, wit)), fmul(c2, var_val(v2, ins, wit))),
{
    let sh = seq![(v1, c1), (v2, c2)];
    assert(sh.drop_last() =~= seq![(v1, c1)]);
    assert(sh.last() == (v2, c2));
    lemma_lc_val_single(v1, c1, ins, wit);
}

/// Soundness at the circuit level: under the shape that `demo_system`
/// builds, a satisfying assignment of canonical field values is forced, wire
/// by wire, to the computation on its witness `x` — and its public input to
/// the output `x^3 + x + 5`.  No other public-input value satisfies the
/// system.
pub proof fn lemma_demo_shape_sound(ins: Seq<nat>, wit: Seq<nat>)
    requires
        ins.len() == 1,
        wit.len() == 5,
        forall|i: int| 0 <= i < 5 ==> #[trigger] wit[i] < field_modulus(),
        ins[0] < field_modulus(),
        forall|i: int| 0 <= i < 5 ==> shape_satisfied(
            #[trigger] demo_constraint_shapes(0, 0)[i],
            ins,
            wit,
        ),
    ensures
        wit[1] == fmul(wit[0], wit[0]),
        wit[2] == fmul(wit[1], wit[0]),
        wit[3] == fadd(wit[0], wit[2]),
        wit[4] == fadd(wit[3], 5),
        ins[0] == demo_output(wit[0]),
{
    let shapes = demo_constraint_shapes(0, 0);
    let p = field_modulus();
    assert(p > 5);
    let xvar = Variable::Witness(0);
    let s1var = Variable::Witness(1);
    let yvar = Variable::Witness(2);
    let s2var = Variable::Witness(3);
    let outvar = Variable::Witness(4);
    let invar = Variable::Input(0);

    lemma_lc_val_single(xvar, 1, ins, wit);
    lemma_lc_val_single(s1var, 1, ins, wit);
    lemma_lc_val_single(yvar, 1, ins, wit);
    lemma_lc_val_single(s2var, 1, ins, wit);
    lemma_lc_val_single(outvar, 1, ins, wit);
    lemma_lc_val_single(invar, 1, ins, wit);
    lemma_lc_val_single(Variable::One, 1, ins, wit);
    lemma_lc_val_pair(xvar, 1, yvar, 1, ins, wit);
    lemma_lc_val_pair(s2var, 1, Variable::One, 5, ins, wit);

    assert(1 * wit[0] == wit[0] && 1 * wit[1] == wit[1] && 1 * wit[2] == wit[2] && 1 * wit[3]
        == wit[3] && 1 * wit[4] == wit[4] && 1 * ins[0] == ins[0]) by (nonlinear_arith);
    assert(1 * 1nat == 1nat && 5 * 1nat == 5nat) by (nonlinear_arith);
    lemma_small_mod(1, p);
    lemma_small_mod(5, p);
    lemma_small_mod(wit[0], p);
    lemma_small_mod(wit[1], p);
    lemma_small_mod(wit[2], p);
    lemma_small_mod(wit[3], p);
    lemma_small_mod(wit[4], p);
    lemma_small_mod(ins[0], p);
    assert(fmul(1, wit[0]) == wit[0] && fmul(1, wit[1]) == wit[1] && fmul(1, wit[2]) == wit[2]
        && fmul(1, wit[3]) == wit[3] && fmul(1, wit[4]) == wit[4] && fmul(1, ins[0]) == ins[0]
        && fmul(1, 1nat) == 1 && fmul(5, 1nat) == 5);

    assert(wit[1] == fmul(wit[0], wit[0])) by {
        assert(shape_satisfied(shapes[0], ins, wit));
    }
    assert(wit[2] == fmul(wit[1], wit[0])) by {
        assert(shape_satisfied(shapes[1], ins, wit));
    }
    let a3 = fadd(wit[0], wit[2]);
    assert(wit[3] == a3) by {
        assert(shape_satisfied(shapes[2], ins, wit));
        assert(lc_val(shapes[2].a, ins, wit) == a3);
        assert(a3 * 1 == a3) by (nonlinear_arith);
        lemma_small_mod(a3, p);
    }
    let a4 = fadd(wit[3], 5);
    assert(wit[4] == a4) by {
        assert(shape_satisfied(shapes[3], ins, wit));
        assert(lc_val(shapes[3].a, ins, wit) == a4);
        assert(a4 * 1 == a4) by (nonlinear_arith);
        lemma_small_mod(a4, p);
    }
    assert(ins[0] == wit[4]) by {
        assert(shape_satisfied(shapes[4], ins, wit));
        assert(wit[4] * 1 == wit[4]) by (nonlinear_arith);
    }
}

/// The scenario's uniqueness: with witness value 3 bound to `x`, the only
/// public-input value that satisfies the demo shape is 35.
pub proof fn lemma_demo_sound_three(ins: Seq<nat>, wit: Seq<nat>)
    requires
        ins.len() == 1,
        wit.len() == 5,
        forall|i: int| 0 <= i < 5 ==> #[trigger] wit[i] < field_modulus(),
        ins[0] < field_modulus(),
        forall|i: int| 0 <= i < 5 ==> shape_satisfied(
            #[trigger] demo_constraint_shapes(0, 0)[i],
            ins,
            wit,
        ),
        wit[0] == 3,
    ensures
        ins[0] == 35,
{
    lemma_demo_shape_sound(ins, wit);
    lemma_demo_output_three();
}

impl Circuit for DemoCircuit {
    /// The demo circuit's effect on a builder's shape.
    open spec fn shape_after(pre: SystemShape) -> SystemShape {
        demo_shape_after(pre)
    }

    /// Synthesize the circuit against a builder.  Fails exactly when the
    /// builder records values and no witness was given; on success it appends
    /// the demo shape, and in `Prove` mode the recorded assignment satisfies
    /// the new constraints, so the whole system is satisfied exactly when it
    /// was before.
    #[verifier::rlimit(50)]
    fn synthesize(self, cs: &mut ConstraintSystem) -> (r: Result<(), SynthesisError>)
        ensures
            final(cs).wf(),
            final(cs).mode == old(cs).mode,
            r is Ok <==> (old(cs).mode is Setup || self.x is Some),
            r is Ok ==> final(cs).shape() == demo_shape_after(old(cs).shape()),
            r is Err ==> *final(cs) == *old(cs)
                && r == Err::<(), SynthesisError>(SynthesisError::AssignmentMissing),
            (r is Ok && old(cs).mode is Prove) ==> {
                &&& final(cs).witness_vals()
                    == old(cs).witness_vals() + demo_witness_vals(scalar_val(self.x.unwrap()))
                &&& final(cs).input_vals()
                    == old(cs).input_vals().push(demo_output(scalar_val(self.x.unwrap())))
                &&& (final(cs).satisfied() <==> old(cs).satisfied())
            },
    {
        let ghost pre = *old(cs);
        let one = scalar_from_u64(1);
        let five = scalar_from_u64(5);

        let x_value = self.x;
        let x = match cs.allocate_private("x", x_value) {
            Ok(v) => v,
            Err(e) => {
                return Err(e);
            }
        };

        let sym_1_value = match &x_value {
            Option::Some(xv) => Option::Some(scalar_mul(xv, xv)),
            Option::None => Option::None,
        };
        let sym_1 = match cs.allocate_private("sym_1", sym_1_value) {
            Ok(v) => v,
            Err(e) => {
                return Err(e);
            }
        };

        let mut a1 = LinearCombination::new();
        a1.add_term(x, one);
        let mut b1 = LinearCombination::new();
        b1.add_term(x, one);
        let mut c1 = LinearCombination::new();
        c1.add_term(sym_1, one);
        cs.enforce("sym_1 = x * x", a1, b1, c1);

        let y_value = match (&sym_1_value, &x_value) {
            (Option::Some(sv), Option::Some(xv)) => Option::Some(scalar_mul(sv, xv)),
            _ => Option::None,
        };
        let y = match cs.allocate_private("y", y_value) {
            Ok(v) => v,
            Err(e) => {
                return Err(e);
            }
        };

        let mut a2 = LinearCombination::new();
        a2.add_term(sym_1, one);
        let mut b2 = LinearCombination::new();
        b2.add_term(x, one);
        let mut c2 = LinearCombination::new();
        c2.add_term(y, one);
        cs.enforce("y = sym_1 * x", a2, b2, c2);

        let sym_2_value = match (&x_value, &y_value) {
            (Option::Some(xv), Option::Some(yv)) => Option::Some(scalar_add(xv, yv)),
            _ => Option::None,
        };
        let sym_2 = match cs.allocate_private("sym_2", sym_2_value) {
            Ok(v) => v,
            Err(e) => {
                return Err(e);
            }
        };

        let mut a3 = LinearCombination::new();
        a3.add_term(x, one);
        a3.add_term(y, one);
        let mut b3 = LinearCombination::new();
        b3.add_term(Variable::One, one);
        let mut c3 = LinearCombination::new();
        c3.add_term(sym_2, one);
        cs.enforce("sym_2 = (x + y) * 1", a3, b3, c3);

        let out_value = match &sym_2_value {
            Option::Some(sv) => Option::Some(scalar_add(sv, &five)),
            Option::None => Option::None,
        };
        let out = match cs.allocate_private("out", out_value) {
            Ok(v) => v,
            Err(e) => {
                return Err(e);
            }
        };

        let mut a4 = LinearCombination::new();
        a4.add_term(sym_2, one);
        a4.add_term(Variable::One, five);
        let mut b4 = LinearCombination::new();
        b4.add_term(Variable::One, one);
        let mut c4 = LinearCombination::new();
        c4.add_term(out, one);
        cs.enforce("out = (sym_2 + 5) * 1", a4, b4, c4);

        let out_input = match cs.allocate_public_input("out", out_value) {
            Ok(v) => v,
            Err(e) => {
                return Err(e);
            }
        };

        let mut a5 = LinearCombination::new();
        a5.add_term(out, one);
        let mut b5 = LinearCombination::new();
        b5.add_term(Variable::One, one);
        let mut c5 = LinearCombination::new();
        c5.add_term(out_input, one);
        cs.enforce("out = public input", a5, b5, c5);

        let total_witness = cs.witness.len();
        let total_inputs = cs.inputs.len();
        proof {
            broadcast use vstd::arithmetic::div_mod::lemma_mod_bound;

            let ni = pre.num_inputs();
            let nw = pre.num_witness();
            assert(nw + 5 == total_witness as nat);
            assert(ni + 1 == total_inputs as nat);
            assert(nw + 5 <= usize::MAX);
            let xvar = Variable::Witness(nw as usize);
            let s1var = Variable::Witness((nw + 1) as usize);
            let yvar = Variable::Witness((nw + 2) as usize);
            let s2var = Variable::Witness((nw + 3) as usize);
            let outvar = Variable::Witness((nw + 4) as usize);
            let invar = Variable::Input(ni as usize);
            let shapes = demo_constraint_shapes(ni, nw);
            let n = pre.constraints@.len() as int;

            assert(x == xvar && sym_1 == s1var && y == yvar && sym_2 == s2var && out == outvar);
            assert(out_input == invar);
            assert(cs.constraints@.len() == n + 5);
            assert(cs.witness@.len() == nw + 5);
            assert(cs.inputs@.len() == ni + 1);

            let k1 = cs.constraints@[n];
            let k2 = cs.constraints@[n + 1];
            let k3 = cs.constraints@[n + 2];
            let k4 = cs.constraints@[n + 3];
            assert(constraint_shape(k1) =~= shapes[0]) by {
                assert(lc_shape(k1.a.terms@) =~= shapes[0].a);
                assert(lc_shape(k1.b.terms@) =~= shapes[0].b);
                assert(lc_shape(k1.c.terms@) =~= shapes[0].c);
            }
            assert(constraint_shape(k2) =~= shapes[1]) by {
                assert(lc_shape(k2.a.terms@) =~= shapes[1].a);
                assert(lc_shape(k2.b.terms@) =~= shapes[1].b);
                assert(lc_shape(k2.c.terms@) =~= shapes[1].c);
            }
            assert(constraint_shape(k3) =~= shapes[2]) by {
                assert(lc_shape(k3.a.terms@) =~= shapes[2].a);
                assert(lc_shape(k3.b.terms@) =~= shapes[2].b);
                assert(lc_shape(k3.c.terms@) =~= shapes[2].c);
            }
            assert(constraint_shape(k4) =~= shapes[3]) by {
                assert(lc_shape(k4.a.terms@) =~= shapes[3].a);
                assert(lc_shape(k4.b.terms@) =~= shapes[3].b);
                assert(lc_shape(k4.c.terms@) =~= shapes[3].c);
            }
            let k5 = cs.constraints@[n + 4];
            assert(constraint_shape(k5) =~= shapes[4]) by {
                assert(lc_shape(k5.a.terms@) =~= shapes[4].a);
                assert(lc_shape(k5.b.terms@) =~= shapes[4].b);
                assert(lc_shape(k5.c.terms@) =~= shapes[4].c);
            }
            assert(cs.shape().constraints =~= pre.shape().constraints + shapes) by {
                assert forall|i: int| 0 <= i < n + 5
                    implies #[trigger] cs.shape().constraints[i]
                        == (pre.shape().constraints + shapes)[i] by {
                    assert(cs.shape().constraints[i] == constraint_shape(cs.constraints@[i]));
                    if i < n {
                        assert(cs.constraints@[i] == pre.constraints@[i]);
                        assert(pre.shape().constraints[i] == constraint_shape(pre.constraints@[i]));
                    }
                }
            }
            assert(cs.shape() =~= demo_shape_after(pre.shape()));

            if pre.mode is Prove {
                let p = field_modulus();
                assert(p > 5);
                let xs = x_value.unwrap();
                let xv = scalar_val(xs);
                let s1v = fmul(xv, xv);
                let yv = fmul(s1v, xv);
                let s2v = fadd(xv, yv);
                let outv = fadd(s2v, 5);
                assert(scalar_val(sym_1_value.unwrap()) == s1v);
                assert(scalar_val(y_value.unwrap()) == yv);
                assert(scalar_val(sym_2_value.unwrap()) == s2v);
                assert(scalar_val(five) == 5);
                assert(scalar_val(out_value.unwrap()) == outv);
                assert(outv == demo_output(xv));

                let ins1 = pre.input_vals();
                let wit1 = pre.witness_vals();
                let ins2 = cs.input_vals();
                let wit2 = cs.witness_vals();
                assert(ins1.len() == ni && wit1.len() == nw);
                assert(ins2.len() == ni + 1 && wit2.len() == nw + 5);

                assert(wit2 =~= wit1 + demo_witness_vals(xv)) by {
                    assert forall|i: int| 0 <= i < nw + 5
                        implies #[trigger] wit2[i] == (wit1 + demo_witness_vals(xv))[i] by {
                        assert(wit2[i] == scalar_val(cs.witness@[i].unwrap()));
                        if i < nw {
                            assert(cs.witness@[i] == pre.witness@[i]);
                            assert(wit1[i] == scalar_val(pre.witness@[i].unwrap()));
                        } else if i == nw {
                            assert(cs.witness@[i] == x_value);
                        } else if i == nw + 1 {
                            assert(cs.witness@[i] == sym_1_value);
                        } else if i == nw + 2 {
                            assert(cs.witness@[i] == y_value);
                        } else if i == nw + 3 {
                            assert(cs.witness@[i] == sym_2_value);
                        } else {
                            assert(cs.witness@[i] == out_value);
                        }
                    }
                }
                assert(ins2 =~= ins1.push(outv)) by {
                    assert forall|i: int| 0 <= i < ni + 1
                        implies #[trigger] ins2[i] == ins1.push(outv)[i] by {
                        assert(ins2[i] == scalar_val(cs.inputs@[i].unwrap()));
                        if i < ni {
                            assert(cs.inputs@[i] == pre.inputs@[i]);
                            assert(ins1[i] == scalar_val(pre.inputs@[i].unwrap()));
                        } else {
                            assert(cs.inputs@[i] == out_value);
                        }
                    }
                }

                assert(ins1.is_prefix_of(ins2)) by {
                    assert(ins2.take(ins1.len() as int) =~= ins1);
                }
                assert(wit1.is_prefix_of(wit2)) by {
                    assert(wit2.take(wit1.len() as int) =~= wit1);
                }

                // The constraints that were already present read none of the
                // new slots, so their evaluation is unchanged.
                assert forall|i: int| 0 <= i < n
                    implies (shape_satisfied(
                        constraint_shape(#[trigger] cs.constraints@[i]), ins2, wit2)
                        <==> shape_satisfied(constraint_shape(pre.constraints@[i]), ins1, wit1))
                    by {
                    assert(cs.constraints@[i] == pre.constraints@[i]);
                    assert(constraint_in_range(pre.constraints@[i], ni, nw));
                    let sh = constraint_shape(pre.constraints@[i]);
                    lemma_lc_val_prefix(sh.a, ins1, wit1, ins2, wit2);
                    lemma_lc_val_prefix(sh.b, ins1, wit1, ins2, wit2);
                    lemma_lc_val_prefix(sh.c, ins1, wit1, ins2, wit2);
                }

                // Values of the fresh variables.
                assert(var_val(xvar, ins2, wit2) == xv);
                assert(var_val(s1var, ins2, wit2) == s1v);
                assert(var_val(yvar, ins2, wit2) == yv);
                assert(var_val(s2var, ins2, wit2) == s2v);
                assert(var_val(outvar, ins2, wit2) == outv);
                assert(var_val(invar, ins2, wit2) == outv);
                assert(var_val(Variable::One, ins2, wit2) == 1);

                lemma_lc_val_single(xvar, 1, ins2, wit2);
                lemma_lc_val_single(s1var, 1, ins2, wit2);
                lemma_lc_val_single(yvar, 1, ins2, wit2);
                lemma_lc_val_single(s2var, 1, ins2, wit2);
                lemma_lc_val_single(outvar, 1, ins2, wit2);
                lemma_lc_val_single(invar, 1, ins2, wit2);
                lemma_lc_val_single(Variable::One, 1, ins2, wit2);
                lemma_lc_val_pair(xvar, 1, yvar, 1, ins2, wit2);
                lemma_lc_val_pair(s2var, 1, Variable::One, 5, ins2, wit2);

                lemma_small_mod(1, p);
                lemma_small_mod(5, p);
                lemma_small_mod(s1v, p);
                lemma_small_mod(yv, p);
                lemma_small_mod(s2v, p);
                lemma_small_mod(outv, p);
                assert(1 * xv == xv) by (nonlinear_arith);
                assert(fmul(1, xv) == xv % p);
                assert(1 * s1v == s1v && 1 * yv == yv && 1 * s2v == s2v && 1 * outv == outv)
                    by (nonlinear_arith);
                assert(1 * 1nat == 1nat && 5 * 1nat == 5nat) by (nonlinear_arith);
                assert(fmul(1, s1v) == s1v);
                assert(fmul(1, yv) == yv);
                assert(fmul(1, s2v) == s2v);
                assert(fmul(1, outv) == outv);
                assert(fmul(1, 1nat) == 1);
                assert(fmul(5, 1nat) == 5);

                assert(shape_satisfied(shapes[0], ins2, wit2)) by {
                    lemma_mul_mod_noop_general(xv as int, xv as int, p as int);
                }
                assert(shape_satisfied(shapes[1], ins2, wit2)) by {
                    lemma_mul_mod_noop_general(s1v as int, xv as int, p as int);
                }
                assert(shape_satisfied(shapes[2], ins2, wit2)) by {
                    lemma_add_mod_noop(xv as int, yv as int, p as int);
                    assert(lc_val(shapes[2].a, ins2, wit2) == s2v);
                    assert(lc_val(shapes[2].b, ins2, wit2) == 1);
                    assert(s2v * 1 == s2v) by (nonlinear_arith);
                }
                assert(shape_satisfied(shapes[3], ins2, wit2)) by {
                    lemma_add_mod_noop(s2v as int, 5, p as int);
                    assert(lc_val(shapes[3].a, ins2, wit2) == outv);
                    assert(lc_val(shapes[3].b, ins2, wit2) == 1);
                    assert(outv * 1 == outv) by (nonlinear_arith);
                }
                assert(shape_satisfied(shapes[4], ins2, wit2)) by {
                    assert(lc_val(shapes[4].a, ins2, wit2) == outv);
                    assert(lc_val(shapes[4].b, ins2, wit2) == 1);
                    assert(lc_val(shapes[4].c, ins2, wit2) == outv);
                    assert(outv * 1 == outv) by (nonlinear_arith);
                }

                assert(cs.satisfied() <==> pre.satisfied()) by {
                    if pre.satisfied() {
                        assert forall|i: int| 0 <= i < cs.constraints@.len()
                            implies shape_satisfied(
                                constraint_shape(#[trigger] cs.constraints@[i]), ins2, wit2) by {
                            if i < n {
                                assert(shape_satisfied(
                                    constraint_shape(pre.constraints@[i]), ins1, wit1));
                            } else {
                                assert(constraint_shape(cs.constraints@[i]) == shapes[i - n]);
                            }
                        }
                    }
                    if cs.satisfied() {
                        assert forall|i: int| 0 <= i < n
                            implies shape_satisfied(
                                constraint_shape(#[trigger] pre.constraints@[i]), ins1, wit1) by {
                            assert(shape_satisfied(
                                constraint_shape(cs.constraints@[i]), ins2, wit2));
                        }
                    }
                }
            }
        }
        Ok(())
    }
}

/// The shape of a system that holds nothing yet.
pub open spec fn empty_shape() -> SystemShape {
    SystemShape { num_inputs: 0, num_witness: 0, constraints: Seq::empty() }
}

/// Build a `Prove`-mode system for the demo circuit with witness `x`.  The
/// recorded assignment always satisfies the system it builds — completeness
/// at the circuit level — and the public input is the output value.
pub fn demo_system(x: bls12_381::Scalar) -> (r: ConstraintSystem)
    ensures
        r.wf(),
        r.mode is Prove,
        r.satisfied(),
        r.shape() == demo_shape_after(empty_shape()),
        r.witness_vals() == demo_witness_vals(scalar_val(x)),
        r.input_vals() == seq![demo_output(scalar_val(x))],
{
    let mut cs = ConstraintSystem::new(Mode::Prove);
    let ghost cs0 = cs;
    let circuit = DemoCircuit { x: Option::Some(x) };
    let res = circuit.synthesize(&mut cs);
    proof {
        assert(res is Ok);
        assert(cs0.shape() =~= empty_shape()) by {
            assert(cs0.constraints@.map_values(|c: Constraint| constraint_shape(c)) =~= Seq::<
                ConstraintShape,
            >::empty());
        }
        assert(cs0.satisfied());
        assert(cs0.witness_vals() =~= Seq::<nat>::empty());
        assert(cs0.input_vals() =~= Seq::<nat>::empty());
        assert(Seq::<nat>::empty() + demo_witness_vals(scalar_val(x)) =~= demo_witness_vals(
            scalar_val(x),
        ));
        assert(Seq::<nat>::empty().push(demo_output(scalar_val(x))) =~= seq![
            demo_output(scalar_val(x)),
        ]);
    }
    cs
}

/// Build a `Setup`-mode system for the demo circuit: the shape alone, from a
/// placeholder witness.
pub fn demo_setup_system() -> (r: ConstraintSystem)
    ensures
        r.wf(),
        r.mode is Setup,
        r.shape() == demo_shape_after(empty_shape()),
{
    let mut cs = ConstraintSystem::new(Mode::Setup);
    let ghost cs0 = cs;
    let circuit = DemoCircuit { x: Option::None };
    let res = circuit.synthesize(&mut cs);
    proof {
        assert(res is Ok);
        assert(cs0.shape() =~= empty_shape()) by {
            assert(cs0.constraints@.map_values(|c: Constraint| constraint_shape(c)) =~= Seq::<
                ConstraintShape,
            >::empty());
        }
    }
    cs
}

} // verus!
