use vstd::prelude::*;

verus! {

/// Every failure the library can report.
///
/// Each operation returns the variant that names exactly what went wrong;
/// nothing is retried, masked or defaulted.
#[derive(Clone, Copy, Debug, PartialEq, Eq, Structural)]
pub enum Error {
    /// The matrix's column count disagrees with the length of the vector it
    /// multiplies.
    ShapeMismatchColumns,
    /// The matrix's row count disagrees with the length of the vector added
    /// to the product.
    ShapeMismatchRows,
    /// The caller's input vector length disagrees with the network's declared
    /// input width.
    InputMismatch { expected: usize, actual: usize },
    /// The builder was asked to build a topology whose input width is unset
    /// or zero.
    MissingInputLayer,
    /// The builder was asked to build a topology to which no layer was added.
    MissingLayer,
    /// A number generator returned a different count of values than was
    /// requested of it; the construction that asked is abandoned, never
    /// truncated or padded.
    GeneratorFailure { requested: usize, returned: usize },
}

impl Error {
    /// A short description of the error, for callers that report it.
    pub fn describe(&self) -> (r: &'static str)
        ensures
            r@ == self.spec_describe(),
    {
        match self {
            Error::ShapeMismatchColumns => {
                "Number of columns of matrix and size of first vector must be equal"
            },
            Error::ShapeMismatchRows => {
                "Number of rows of matrix and size of second vector must be equal"
            },
            Error::InputMismatch { .. } => {
                "Number of input are not consistent with topology of neural network"
            },
            Error::MissingInputLayer => "There is no input layer in your neural network",
            Error::MissingLayer => "There is no hidden or output layer in your neural network",
            Error::GeneratorFailure { .. } => {
                "The number generator did not return the requested count of values"
            },
        }
    }

    /// What `describe` returns, variant by variant.
    pub open spec fn spec_describe(&self) -> Seq<char> {
        match self {
            Error::ShapeMismatchColumns => {
                "Number of columns of matrix and size of first vector must be equal"@
            },
            Error::ShapeMismatchRows => {
                "Number of rows of matrix and size of second vector must be equal"@
            },
            Error::InputMismatch { .. } => {
                "Number of input are not consistent with topology of neural network"@
            },
            Error::MissingInputLayer => "There is no input layer in your neural network"@,
            Error::MissingLayer => "There is no hidden or output layer in your neural network"@,
            Error::GeneratorFailure { .. } => {
                "The number generator did not return the requested count of values"@
            },
        }
    }
}

} // verus!
