//! The circuit abstraction: any computation that can synthesize itself
//! against a constraint-system builder.
//!
//! A circuit is consumed by one synthesis run.  Whatever witness values it
//! carries, a run must append the same constraint topology; only the values
//! bound to the variables may differ.  Each implementation therefore fixes,
//! as `shape_after`, what a successful run does to the builder's shape as a
//! function of the prior shape alone.

use vstd::prelude::*;
use crate::r1cs::{ConstraintSystem, SynthesisError, SystemShape};

verus! {

pub trait Circuit: Sized {
    /// The shape a successful synthesis run leaves, as a function of the
    /// builder's prior shape alone.
    spec fn shape_after(pre: SystemShape) -> SystemShape;

    /// Synthesize the circuit against a builder, consuming it.  Failure
    /// leaves the builder untouched; success appends exactly the shape that
    /// `shape_after` fixes.
    fn synthesize(self, cs: &mut ConstraintSystem) -> (r: Result<(), SynthesisError>)
        requires
            old(cs).wf(),
        ensures
            final(cs).wf(),
            final(cs).mode == old(cs).mode,
            r is Ok ==> final(cs).shape() == Self::shape_after(old(cs).shape()),
            r is Err ==> *final(cs) == *old(cs),
    ;
}

} // verus!
