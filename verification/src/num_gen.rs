use vstd::prelude::*;

verus! {

/// A source of scalar values, used to populate the weights and biases of a
/// network at construction time. The policy — zero-fill, a constant, a
/// pseudo-random stream drawn from state fixed in the receiver — is the
/// implementor's choice; the library never inspects the values it is handed.
///
/// Implementations are expected to be pure: what `generate_vec` returns is a
/// function of the receiver and the requested size alone. A well-behaved
/// generator returns exactly `size` values; one that returns any other count
/// is treated as having failed, and every construction that asked reports
/// that failure instead of truncating or padding.
pub trait NumberGenerator<T>: Sized {
    /// What `generate_vec` returns.
    spec fn spec_generate(&self, size: usize) -> Seq<T>;

    /// Produce the values that a request of `size` scalars yields.
    fn generate_vec(&self, size: usize) -> (r: Vec<T>)
        ensures
            r@ == self.spec_generate(size),
    ;
}

/// A generator that yields the same scalar however many times it is asked.
#[derive(Debug)]
pub struct ConstantGenerator<T> {
    /// The scalar every request is filled with.
    pub value: T,
}

impl<T: Copy> NumberGenerator<T> for ConstantGenerator<T> {
    open spec fn spec_generate(&self, size: usize) -> Seq<T> {
        Seq::new(size as nat, |i: int| self.value)
    }

    fn generate_vec(&self, size: usize) -> (r: Vec<T>) {
        let mut r: Vec<T> = Vec::new();
        while r.len() < size
            invariant
                r@.len() <= size,
                forall|i: int| 0 <= i < r@.len() ==> r@[i] == self.value,
            decreases size - r@.len(),
        {
            r.push(self.value);
        }
        proof {
            assert(r@ =~= self.spec_generate(size));
        }
        r
    }
}

/// A generator that replays a fixed sequence of scalars, whatever count is
/// asked of it. A request for any other count is thereby misanswered, which
/// constructions report as a generator failure; a request for exactly that
/// count is a deterministic way to lay chosen values into a matrix.
#[derive(Debug)]
pub struct SequenceGenerator<T> {
    /// The scalars every request is answered with.
    pub values: Vec<T>,
}

impl<T: Copy> NumberGenerator<T> for SequenceGenerator<T> {
    open spec fn spec_generate(&self, size: usize) -> Seq<T> {
        self.values@
    }

    fn generate_vec(&self, size: usize) -> (r: Vec<T>) {
        let mut r: Vec<T> = Vec::new();
        let mut i: usize = 0;
        while i < self.values.len()
            invariant
                i <= self.values@.len(),
                r@.len() == i,
                forall|k: int| 0 <= k < i ==> r@[k] == self.values@[k],
            decreases self.values@.len() - i,
        {
            r.push(self.values[i]);
            i = i + 1;
        }
        proof {
            assert(r@ =~= self.values@);
        }
        r
    }
}

} // verus!
