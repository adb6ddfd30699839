//! A rank-1 constraint system (R1CS) builder with a Groth16 proving pipeline.
//!
//! Circuits are described by allocating variables and enforcing constraints of
//! the form `A * B = C`, where `A`, `B` and `C` are linear combinations of
//! variables over the BLS12-381 scalar field.  The constraint accumulation,
//! linear-combination evaluation, satisfaction checking and the demonstration
//! circuit are verified; the elliptic-curve pairing work of proof verification
//! is delegated to bellman behind a small trusted boundary.

pub mod field;
pub mod circuit;
pub mod r1cs;
pub mod demo;
pub mod verify;
