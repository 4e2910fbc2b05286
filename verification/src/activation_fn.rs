use vstd::prelude::*;

verus! {

/// A scalar-to-scalar nonlinearity, applied elementwise after each affine
/// transform of a network.
///
/// Implementations are expected to be pure and total: `activate` a function
/// of the receiver and its argument alone, with no side effects and no
/// failure case. Any value implementing this capability can be installed per
/// layer transition.
pub trait ActivationFunction<T>: Sized {
    /// What `activate` returns.
    spec fn spec_activate(&self, x: T) -> T;

    /// Apply the nonlinearity to one scalar.
    fn activate(&self, x: T) -> (r: T)
        ensures
            r == self.spec_activate(x),
    ;
}

/// The identity activation: every scalar passes through unchanged.
#[derive(Clone, Copy, Debug, PartialEq, Eq, Structural)]
pub struct Identity;

impl<T> ActivationFunction<T> for Identity {
    open spec fn spec_activate(&self, x: T) -> T {
        x
    }

    fn activate(&self, x: T) -> (r: T) {
        x
    }
}

/// Every component of `x`, passed through `fun`.
pub open spec fn activated<T, A: ActivationFunction<T>>(fun: A, x: Seq<T>) -> Seq<T> {
    Seq::new(x.len(), |i: int| fun.spec_activate(x[i]))
}

} // verus!
