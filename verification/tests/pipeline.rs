use bellman::groth16::{create_random_proof, generate_random_parameters, Parameters, Proof, VerifyingKey};
use bellman::{Circuit, ConstraintSystem as BellmanCs, LinearCombination as BellmanLc, SynthesisError as BellmanError, Variable as BellmanVar};
use bls12_381::{Bls12, Scalar};
use groth16_r1cs::circuit::Circuit as R1csCircuit;
use groth16_r1cs::demo::{demo_setup_system, demo_system, DemoCircuit};
use groth16_r1cs::r1cs::{ConstraintSystem, LinearCombination, Mode, SynthesisError, Variable};
use groth16_r1cs::verify::{verify, VerifyError};

/// Replays an R1CS built by the library into a bellman constraint system.
struct Replay {
    inputs: Vec<Option<Scalar>>,
    witness: Vec<Option<Scalar>>,
    constraints: Vec<(Vec<(Variable, Scalar)>, Vec<(Variable, Scalar)>, Vec<(Variable, Scalar)>)>,
}

fn terms_of(lc: &LinearCombination) -> Vec<(Variable, Scalar)> {
    lc.terms.iter().map(|t| (t.var, t.coeff)).collect()
}

fn replay_of(cs: &ConstraintSystem) -> Replay {
    Replay {
        inputs: cs.inputs.clone(),
        witness: cs.witness.clone(),
        constraints: cs
            .constraints
            .iter()
            .map(|c| (terms_of(&c.a), terms_of(&c.b), terms_of(&c.c)))
            .collect(),
    }
}

impl Circuit<Scalar> for Replay {
    fn synthesize<CS: BellmanCs<Scalar>>(self, cs: &mut CS) -> Result<(), BellmanError> {
        let mut wit_vars: Vec<BellmanVar> = Vec::new();
        for w in self.witness.iter() {
            let v = *w;
            wit_vars.push(cs.alloc(|| "w", move || v.ok_or(BellmanError::AssignmentMissing))?);
        }
        let mut in_vars: Vec<BellmanVar> = Vec::new();
        for x in self.inputs.iter() {
            let v = *x;
            in_vars.push(cs.alloc_input(|| "i", move || v.ok_or(BellmanError::AssignmentMissing))?);
        }
        let to_bellman = |var: Variable| -> BellmanVar {
            match var {
                Variable::One => CS::one(),
                Variable::Input(i) => in_vars[i],
                Variable::Witness(i) => wit_vars[i],
            }
        };
        let add_terms = |mut lc: BellmanLc<Scalar>, terms: &Vec<(Variable, Scalar)>| -> BellmanLc<Scalar> {
            for (v, coeff) in terms.iter() {
                lc = lc + (*coeff, to_bellman(*v));
            }
            lc
        };
        for (a, b, c) in self.constraints.iter() {
            cs.enforce(
                || "constraint",
                |lc| add_terms(lc, a),
                |lc| add_terms(lc, b),
                |lc| add_terms(lc, c),
            );
        }
        Ok(())
    }
}

fn make_params() -> Parameters<Bls12> {
    let setup_cs = demo_setup_system();
    let mut rng = rand::thread_rng();
    generate_random_parameters::<Bls12, _, _>(replay_of(&setup_cs), &mut rng).unwrap()
}

fn vk_bytes_of(params: &Parameters<Bls12>) -> Vec<u8> {
    let mut v = Vec::new();
    params.vk.write(&mut v).unwrap();
    v
}

fn proof_bytes_for(params: &Parameters<Bls12>, x: u64) -> Vec<u8> {
    let prove_cs = demo_system(Scalar::from(x));
    assert!(prove_cs.is_satisfied());
    let mut rng = rand::thread_rng();
    let proof = create_random_proof(replay_of(&prove_cs), params, &mut rng).unwrap();
    let mut v = Vec::new();
    proof.write(&mut v).unwrap();
    v
}

#[test]
fn demo_scenario_three_gives_thirty_five() {
    let params = make_params();
    let vk = vk_bytes_of(&params);
    let proof = proof_bytes_for(&params, 3);
    assert_eq!(verify(&vk, &proof, &vec![Scalar::from(35)]), Ok(true));
    assert_eq!(verify(&vk, &proof, &vec![Scalar::from(36)]), Ok(false));
}

#[test]
fn public_input_sensitivity() {
    let params = make_params();
    let vk = vk_bytes_of(&params);
    let proof = proof_bytes_for(&params, 3);
    // Any change to the single public input must make verification reject.
    for wrong in [0u64, 1, 34, 36, 1000] {
        assert_eq!(verify(&vk, &proof, &vec![Scalar::from(wrong)]), Ok(false));
    }
    assert_eq!(verify(&vk, &proof, &vec![Scalar::from(35)]), Ok(true));
}

#[test]
fn malformed_proof_bytes_never_accepted() {
    let params = make_params();
    let vk = vk_bytes_of(&params);
    let proof = proof_bytes_for(&params, 3);
    // Flipping bits anywhere in the encoding yields a reject or a decode
    // error, never a panic and never an accept.
    for pos in [0usize, 1, 17, 47, 48, 95, 96, 143, 144, 191] {
        for bit in [0u8, 3, 7] {
            let mut bad = proof.clone();
            bad[pos] ^= 1 << bit;
            let r = verify(&vk, &bad, &vec![Scalar::from(35)]);
            assert!(r == Ok(false) || r == Err(VerifyError::ProofEncoding));
        }
    }
    // Wrong lengths are rejected at the boundary.
    assert_eq!(verify(&vk, &Vec::new(), &vec![Scalar::from(35)]), Err(VerifyError::ProofEncoding));
    assert_eq!(verify(&vk, &proof[..191].to_vec(), &vec![Scalar::from(35)]), Err(VerifyError::ProofEncoding));
    let mut long = proof.clone();
    long.push(0);
    assert_eq!(verify(&vk, &long, &vec![Scalar::from(35)]), Err(VerifyError::ProofEncoding));
}

#[test]
fn malformed_verifying_key_rejected() {
    let params = make_params();
    let proof = proof_bytes_for(&params, 3);
    let vk = vk_bytes_of(&params);
    assert_eq!(
        verify(&vec![0u8; 5], &proof, &vec![Scalar::from(35)]),
        Err(VerifyError::VerifyingKeyEncoding)
    );
    let mut bad_vk = vk.clone();
    bad_vk[10] ^= 0xff;
    let r = verify(&bad_vk, &proof, &vec![Scalar::from(35)]);
    assert!(r == Ok(false) || r == Err(VerifyError::VerifyingKeyEncoding));
    // A key whose length does not match its declared element count is
    // rejected before any decoding.
    let truncated = vk[..vk.len() - 1].to_vec();
    assert_eq!(verify(&truncated, &proof, &vec![Scalar::from(35)]), Err(VerifyError::VerifyingKeyEncoding));
    let mut extended = vk.clone();
    extended.push(0);
    assert_eq!(verify(&extended, &proof, &vec![Scalar::from(35)]), Err(VerifyError::VerifyingKeyEncoding));
}

#[test]
fn wrong_input_count_rejected() {
    let params = make_params();
    let vk = vk_bytes_of(&params);
    let proof = proof_bytes_for(&params, 3);
    assert_eq!(verify(&vk, &proof, &Vec::new()), Err(VerifyError::InputCountMismatch));
    assert_eq!(
        verify(&vk, &proof, &vec![Scalar::from(35), Scalar::from(35)]),
        Err(VerifyError::InputCountMismatch)
    );
}

#[test]
fn shape_determinism_across_witnesses() {
    let a = demo_system(Scalar::from(3));
    let b = demo_system(Scalar::from(7));
    let setup = demo_setup_system();
    assert!(a.same_shape(&b));
    assert!(a.same_shape(&setup));
    assert_eq!(a.inputs.len(), 1);
    assert_eq!(a.witness.len(), 5);
    assert_eq!(a.constraints.len(), 5);
    assert_eq!(setup.inputs.len(), 1);
    assert_eq!(setup.witness.len(), 5);
    assert_eq!(setup.constraints.len(), 5);
}

#[test]
fn witness_values_for_three() {
    let cs = demo_system(Scalar::from(3));
    let vals: Vec<Scalar> = cs.witness.iter().map(|o| o.unwrap()).collect();
    let expected = [3u64, 9, 27, 30, 35].map(Scalar::from);
    assert_eq!(vals, expected.to_vec());
    assert_eq!(cs.inputs[0].unwrap(), Scalar::from(35));
}

#[test]
fn unsatisfying_assignment_detected() {
    // x = 3 but a wrong value for x^2: the constraint x * x = sym_1 fails.
    let mut cs = ConstraintSystem::new(Mode::Prove);
    let one = Scalar::from(1);
    let x = cs.allocate_private("x", Some(Scalar::from(3))).unwrap();
    let sym_1 = cs.allocate_private("sym_1", Some(Scalar::from(10))).unwrap();
    let mut a = LinearCombination::new();
    a.add_term(x, one);
    let mut b = LinearCombination::new();
    b.add_term(x, one);
    let mut c = LinearCombination::new();
    c.add_term(sym_1, one);
    cs.enforce("sym_1 = x * x", a, b, c);
    assert!(!cs.is_satisfied());
}

#[test]
fn wrong_public_input_not_satisfying() {
    // The fifth constraint ties the public input to the output wire: binding
    // any other value to the input breaks satisfaction.
    let mut cs = demo_system(Scalar::from(3));
    assert!(cs.is_satisfied());
    cs.inputs[0] = Some(Scalar::from(36));
    assert!(!cs.is_satisfied());
}

#[test]
fn satisfying_assignment_accepted() {
    let cs = demo_system(Scalar::from(11));
    assert!(cs.is_satisfied());
}

#[test]
fn missing_witness_value_fails_allocation() {
    let mut cs = ConstraintSystem::new(Mode::Prove);
    assert_eq!(cs.allocate_private("x", None), Err(SynthesisError::AssignmentMissing));
    assert_eq!(cs.allocate_public_input("out", None), Err(SynthesisError::AssignmentMissing));
    // A placeholder is fine during setup.
    let mut setup_cs = ConstraintSystem::new(Mode::Setup);
    assert!(setup_cs.allocate_private("x", None).is_ok());
    assert!(setup_cs.allocate_public_input("out", None).is_ok());
    // The demo circuit propagates the failure.
    let circuit = DemoCircuit { x: None };
    let mut prove_cs = ConstraintSystem::new(Mode::Prove);
    assert_eq!(circuit.synthesize(&mut prove_cs), Err(SynthesisError::AssignmentMissing));
    assert_eq!(prove_cs.witness.len(), 0);
}

#[test]
fn serialization_round_trip() {
    let params = make_params();

    // Parameters round-trip byte for byte.
    let mut params_bytes = Vec::new();
    params.write(&mut params_bytes).unwrap();
    let params2 = Parameters::<Bls12>::read(&params_bytes[..], true).unwrap();
    let mut params_bytes2 = Vec::new();
    params2.write(&mut params_bytes2).unwrap();
    assert_eq!(params_bytes, params_bytes2);

    // Verifying key round-trips byte for byte.
    let vk = vk_bytes_of(&params);
    let vk2 = VerifyingKey::<Bls12>::read(&vk[..]).unwrap();
    let mut vk_bytes2 = Vec::new();
    vk2.write(&mut vk_bytes2).unwrap();
    assert_eq!(vk, vk_bytes2);

    // A proof round-trips byte for byte, and the re-read parameters prove a
    // statement that verifies just as before the round trip.
    let proof = proof_bytes_for(&params, 3);
    let proof2 = Proof::<Bls12>::read(&proof[..]).unwrap();
    let mut proof_bytes2 = Vec::new();
    proof2.write(&mut proof_bytes2).unwrap();
    assert_eq!(proof, proof_bytes2);

    let proof3 = proof_bytes_for(&params2, 3);
    assert_eq!(verify(&vk_bytes2, &proof3, &vec![Scalar::from(35)]), Ok(true));
    assert_eq!(verify(&vk, &proof_bytes2, &vec![Scalar::from(35)]), Ok(true));
}
