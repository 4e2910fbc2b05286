use vstd::prelude::*;

verus! {

/// The arithmetic a scalar must offer for matrices and networks built over
/// it: a total addition and a total multiplication.
///
/// Both operations are left abstract at the specification level, so every
/// contract in this crate speaks of `spec_add` and `spec_mul` and holds for
/// whatever arithmetic an implementation binds. Implementations are expected
/// to be pure: each operation a function of its two operands alone.
pub trait Scalar: Sized + Copy {
    /// What `add` returns.
    spec fn spec_add(self, other: Self) -> Self;

    /// What `mul` returns.
    spec fn spec_mul(self, other: Self) -> Self;

    /// Total addition; `self + other` under the implementation's arithmetic.
    fn add(self, other: Self) -> (r: Self)
        ensures
            r == self.spec_add(other),
    ;

    /// Total multiplication; `self * other` under the implementation's
    /// arithmetic.
    fn mul(self, other: Self) -> (r: Self)
        ensures
            r == self.spec_mul(other),
    ;
}

/// Exact integer arithmetic, wrapping on overflow so that both operations
/// stay total.
impl Scalar for i64 {
    open spec fn spec_add(self, other: i64) -> i64 {
        self.wrapping_add(other)
    }

    open spec fn spec_mul(self, other: i64) -> i64 {
        self.wrapping_mul(other)
    }

    fn add(self, other: i64) -> (r: i64) {
        self.wrapping_add(other)
    }

    fn mul(self, other: i64) -> (r: i64) {
        self.wrapping_mul(other)
    }
}

} // verus!
