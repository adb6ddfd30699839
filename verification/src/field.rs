//! The scalar field of BLS12-381, as the library's contracts see it.
//!
//! A `bls12_381::Scalar` is opaque here; `scalar_val` names the field value it
//! stands for, and the arithmetic wrappers relate their results to that value
//! through modular arithmetic on `nat`.

use vstd::prelude::*;

verus! {

/// The prime modulus of the BLS12-381 scalar field.
pub open spec fn field_modulus() -> nat {
    0x73eda753299d7d483339d80809a1d80553bda402fffe5bfeffffffff00000001nat
}

/// The field value that a `bls12_381::Scalar` stands for.  The representation
/// of a scalar is canonical, so the value determines the scalar and equality
/// of values coincides with equality of scalars.
pub uninterp spec fn scalar_val(s: bls12_381::Scalar) -> nat;

#[verifier::external_type_specification]
#[verifier::external_body]
pub struct ExScalar(bls12_381::Scalar);

/// Addition in the field, on values.
pub open spec fn fadd(a: nat, b: nat) -> nat {
    (a + b) % field_modulus()
}

/// Multiplication in the field, on values.
pub open spec fn fmul(a: nat, b: nat) -> nat {
    (a * b) % field_modulus()
}

/// Relies on bls12_381's `Add for Scalar`: addition of canonical field
/// elements is addition of their values modulo the field modulus.
#[verifier::external_body]
pub fn scalar_add(a: &bls12_381::Scalar, b: &bls12_381::Scalar) -> (r: bls12_381::Scalar)
    ensures
        scalar_val(r) == fadd(scalar_val(*a), scalar_val(*b)),
{
    a + b
}

/// Relies on bls12_381's `Mul for Scalar`: multiplication of canonical field
/// elements is multiplication of their values modulo the field modulus.
#[verifier::external_body]
pub fn scalar_mul(a: &bls12_381::Scalar, b: &bls12_381::Scalar) -> (r: bls12_381::Scalar)
    ensures
        scalar_val(r) == fmul(scalar_val(*a), scalar_val(*b)),
{
    a * b
}

/// Relies on bls12_381's `From<u64> for Scalar`: a `u64` is below the field
/// modulus, so the scalar it maps to has exactly that value.
#[verifier::external_body]
pub fn scalar_from_u64(x: u64) -> (r: bls12_381::Scalar)
    ensures
        scalar_val(r) == x as nat,
{
    bls12_381::Scalar::from(x)
}

/// Relies on bls12_381's `PartialEq for Scalar`: scalars are kept in a unique
/// canonical representation, so they compare equal exactly when they stand
/// for the same field value.
#[verifier::external_body]
pub fn scalar_eq(a: &bls12_381::Scalar, b: &bls12_381::Scalar) -> (r: bool)
    ensures
        r == (scalar_val(*a) == scalar_val(*b)),
{
    a == b
}

} // verus!
