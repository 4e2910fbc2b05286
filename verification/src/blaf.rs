use vstd::prelude::*;

use crate::error::Error;
use crate::activation_fn::{activated, ActivationFunction};
use crate::num_gen::NumberGenerator;
use crate::scalar::Scalar;

verus! {

/// A column vector is nothing but its ordered scalars; its length is its
/// dimension.
pub type ColumnVector<T> = Vec<T>;

/// Dense row-major matrix: entry `(r, c)` is `data[r * nb_columns + c]`.
/// Filled once by a number generator at construction time and immutable
/// afterwards.
pub struct Matrix<T> {
    nb_rows: usize,
    nb_columns: usize,
    data: Vec<T>,
}

impl<T> Matrix<T> {
    /// Row count.
    pub closed spec fn rows(&self) -> nat {
        self.nb_rows as nat
    }

    /// Column count.
    pub closed spec fn cols(&self) -> nat {
        self.nb_columns as nat
    }

    /// The flat row-major entries.
    pub closed spec fn entries(&self) -> Seq<T> {
        self.data@
    }

    /// The matrix holds exactly one entry per cell.
    pub open spec fn wf(&self) -> bool {
        self.entries().len() == self.rows() * self.cols()
    }

    /// Row `r` as a sequence of `cols()` scalars.
    pub open spec fn row(&self, r: int) -> Seq<T> {
        self.entries().subrange(r * self.cols(), r * self.cols() + self.cols())
    }

    /// Entry `(r, c)`.
    pub open spec fn entry(&self, r: int, c: int) -> T {
        self.entries()[r * self.cols() + c]
    }

    /// Construct a `nb_rows` by `nb_cols` matrix whose entries are the
    /// `nb_rows * nb_cols` values requested from `generator`, laid out
    /// row-major. Fails only if the generator fails, that is, returns a
    /// different count of values than was requested; the failure is
    /// propagated, never masked by truncating or padding.
    pub fn new<Generator: NumberGenerator<T>>(
        nb_rows: usize,
        nb_cols: usize,
        generator: &Generator,
    ) -> (res: Result<Self, Error>)
        requires
            nb_rows * nb_cols <= usize::MAX,
        ensures
            match res {
                Ok(m) => {
                    &&& m.wf()
                    &&& m.rows() == nb_rows
                    &&& m.cols() == nb_cols
                    &&& m.entries() == generator.spec_generate((nb_rows * nb_cols) as usize)
                },
                Err(e) => (e matches Error::GeneratorFailure { requested, returned }
                    && requested == nb_rows * nb_cols && returned == generator.spec_generate(
                    (nb_rows * nb_cols) as usize,
                ).len() && returned != requested),
            },
            res is Ok <==> generator.spec_generate((nb_rows * nb_cols) as usize).len() == nb_rows
                * nb_cols,
    {
        let size: usize = nb_rows * nb_cols;
        let data = generator.generate_vec(size);
        if data.len() != size {
            return Err(Error::GeneratorFailure { requested: size, returned: data.len() });
        }
        Ok(Self { nb_rows, nb_columns: nb_cols, data })
    }

    /// Get number of rows.
    pub fn nb_rows(&self) -> (r: usize)
        ensures
            r == self.rows(),
    {
        self.nb_rows
    }

    /// Get number of columns.
    pub fn nb_columns(&self) -> (r: usize)
        ensures
            r == self.cols(),
    {
        self.nb_columns
    }

    /// The flat row-major entries.
    pub fn data(&self) -> (r: &Vec<T>)
        ensures
            r@ == self.entries(),
    {
        &self.data
    }
}

/// `init`, plus the products of the first `k` components of `row` and `x`,
/// accumulated left to right: `((init + row[0] * x[0]) + row[1] * x[1]) + ...`
pub open spec fn affine_prefix<T: Scalar>(row: Seq<T>, x: Seq<T>, init: T, k: int) -> T
    decreases k,
{
    if k <= 0 {
        init
    } else {
        affine_prefix(row, x, init, k - 1).spec_add(row[k - 1].spec_mul(x[k - 1]))
    }
}

/// One component of an affine transform: `init + row . x`, the dot product
/// accumulated left to right.
pub open spec fn row_affine<T: Scalar>(row: Seq<T>, x: Seq<T>, init: T) -> T {
    affine_prefix(row, x, init, x.len() as int)
}

/// What `gemv` returns on shape-compatible inputs: component `r` is
/// `y[r] + mat.row(r) . x`.
pub open spec fn gemv_spec<T: Scalar>(mat: Matrix<T>, x: Seq<T>, y: Seq<T>) -> Seq<T> {
    Seq::new(y.len(), |r: int| row_affine(mat.row(r), x, y[r]))
}

/// General matrix-vector multiply-add: compute `mat * x + y` where `mat` is
/// an `m` by `n` matrix, `x` a column vector of `n` scalars and `y` a column
/// vector of `m` scalars.
///
/// Both shape checks are validated, not assumed, and in this order: a column
/// count that disagrees with `x` is reported even when the row count
/// disagrees with `y` too. The inputs are never mutated, and the result has
/// exactly `y`'s length.
pub fn gemv<T: Scalar>(mat: &Matrix<T>, x: &ColumnVector<T>, y: &ColumnVector<T>) -> (res: Result<
    ColumnVector<T>,
    Error,
>)
    requires
        mat.wf(),
    ensures
        res is Ok <==> (mat.cols() == x@.len() && mat.rows() == y@.len()),
        match res {
            Ok(v) => v@ == gemv_spec(*mat, x@, y@) && v@.len() == y@.len(),
            Err(e) => e == if mat.cols() != x@.len() {
                Error::ShapeMismatchColumns
            } else {
                Error::ShapeMismatchRows
            },
        },
{
    if mat.nb_columns != x.len() {
        return Err(Error::ShapeMismatchColumns);
    }
    if mat.nb_rows != y.len() {
        return Err(Error::ShapeMismatchRows);
    }
    let nb_cols: usize = mat.nb_columns;
    let mut vec_res: ColumnVector<T> = Vec::new();
    let mut r: usize = 0;
    while r < y.len()
        invariant
            mat.wf(),
            mat.cols() == x@.len(),
            mat.rows() == y@.len(),
            nb_cols == mat.cols(),
            r <= y@.len(),
            vec_res@.len() == r,
            forall|k: int| 0 <= k < r ==> vec_res@[k] == row_affine(mat.row(k), x@, y@[k]),
        decreases y@.len() - r,
    {
        proof {
            assert(mat.data.len() == mat.rows() * mat.cols());
            assert(r * nb_cols + nb_cols <= mat.rows() * mat.cols()) by (nonlinear_arith)
                requires
                    r < mat.rows(),
                    nb_cols == mat.cols(),
            ;
        }
        let base: usize = r * nb_cols;
        let mut acc: T = y[r];
        let mut c: usize = 0;
        while c < nb_cols
            invariant
                mat.wf(),
                mat.cols() == x@.len(),
                nb_cols == mat.cols(),
                r < mat.rows(),
                base == r * nb_cols,
                base + nb_cols <= mat.data.len(),
                c <= nb_cols,
                acc == affine_prefix(mat.row(r as int), x@, y@[r as int], c as int),
            decreases nb_cols - c,
        {
            let elem: T = mat.data[base + c];
            proof {
                assert(mat.row(r as int)[c as int] == mat.entries()[base + c]);
            }
            acc = acc.add(elem.mul(x[c]));
            c = c + 1;
        }
        vec_res.push(acc);
        r = r + 1;
    }
    proof {
        assert(vec_res@ =~= gemv_spec(*mat, x@, y@));
    }
    Ok(vec_res)
}

/// The entries of a well-formed matrix read row-major: entry `(r, c)` is the
/// flat entry at position `r * cols + c`, and also component `c` of row `r`,
/// so a matrix filled from a generator's sequence holds that sequence laid
/// out row by row.
pub proof fn lemma_matrix_row_major<T>(m: Matrix<T>, r: int, c: int)
    requires
        m.wf(),
        0 <= r < m.rows(),
        0 <= c < m.cols(),
    ensures
        m.entry(r, c) == m.entries()[r * m.cols() + c],
        m.row(r)[c] == m.entry(r, c),
        m.row(r).len() == m.cols(),
{
    assert(r * m.cols() + m.cols() <= m.rows() * m.cols()) by (nonlinear_arith)
        requires
            r < m.rows(),
            0 <= r,
            0 <= m.cols(),
    ;
    assert(r * m.cols() >= 0) by (nonlinear_arith)
        requires
            0 <= r,
            0 <= m.cols(),
    ;
}

/// One affine round trip: with a single-row, single-column identity-like
/// matrix `[1]`, an input `[v]` and an offset `[0]`, the transform returns
/// `[v]`. Exact for the integer scalars this crate verifies.
pub proof fn lemma_gemv_identity_round_trip(m: Matrix<i64>, v: i64)
    requires
        m.wf(),
        m.rows() == 1,
        m.cols() == 1,
        m.entries() =~= seq![1i64],
    ensures
        gemv_spec(m, seq![v], seq![0i64]) =~= seq![v],
{
    assert(m.row(0) =~= seq![1i64]);
    assert(Scalar::spec_mul(1i64, v) == v);
    assert(Scalar::spec_add(0i64, v) == v);
    assert(affine_prefix(m.row(0), seq![v], 0i64, 0) == 0i64);
    assert(affine_prefix(m.row(0), seq![v], 0i64, 1) == v);
}

/// Apply an activation function on each element of a column vector: given an
/// activation function `f` and `x = [x1, ..., xn]`, return
/// `[f(x1), ..., f(xn)]`.
pub fn apply_activation_function<T: Copy, Fun: ActivationFunction<T>>(
    fun: &Fun,
    x: &ColumnVector<T>,
) -> (r: ColumnVector<T>)
    ensures
        r@ == activated(*fun, x@),
{
    let mut r: ColumnVector<T> = Vec::new();
    let mut i: usize = 0;
    while i < x.len()
        invariant
            i <= x@.len(),
            r@.len() == i,
            forall|k: int| 0 <= k < i ==> r@[k] == fun.spec_activate(x@[k]),
        decreases x@.len() - i,
    {
        r.push(fun.activate(x[i]));
        i = i + 1;
    }
    proof {
        assert(r@ =~= activated(*fun, x@));
    }
    r
}

} // verus!
