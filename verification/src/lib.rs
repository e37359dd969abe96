//! A minimal dense rectangular matrix value type: construction, element
//! access, scalar multiplication and matrix multiplication, with the
//! dimension bookkeeping and the arithmetic proved correct.

use vstd::prelude::*;

verus! {

/// Errors from matrix operations that a caller can inspect and handle.
#[derive(Clone, Copy, Debug, PartialEq, Eq, Structural)]
pub enum MatrixError {
    /// The left operand's column count does not equal the right operand's
    /// row count, so the matrix product is undefined.
    DimensionMismatch,
}

/// A dense rectangular matrix of 64-bit signed integers, stored row-major:
/// one inner vector per row, each of length `cols`.
#[derive(Clone, Debug, PartialEq)]
pub struct Matrix {
    value: Vec<Vec<i64>>,
    rows: usize,
    cols: usize,
}

impl View for Matrix {
    type V = Seq<Seq<i64>>;

    closed spec fn view(&self) -> Seq<Seq<i64>> {
        self.value@.map(|i: int, r: Vec<i64>| r@)
    }
}

/// The single product of matching elements that entry `(i, j)` of the
/// matrix product of `a` and `b` sums at position `k`.
pub open spec fn entry_product(a: Seq<Seq<i64>>, b: Seq<Seq<i64>>, i: int, j: int, k: int) -> int {
    a[i][k] * b[k][j]
}

/// The left-to-right partial sum of the first `n` products that entry
/// `(i, j)` of the matrix product of `a` and `b` accumulates.
pub open spec fn dot_prefix(a: Seq<Seq<i64>>, b: Seq<Seq<i64>>, i: int, j: int, n: int) -> int
    decreases n,
{
    if n <= 0 {
        0
    } else {
        dot_prefix(a, b, i, j, n - 1) + entry_product(a, b, i, j, n - 1)
    }
}

/// Entry `(i, j)` of the matrix product of `a` and `b`, as an unbounded
/// integer: the sum over the whole inner dimension, taken left to right.
pub open spec fn product_entry(a: Seq<Seq<i64>>, b: Seq<Seq<i64>>, i: int, j: int) -> int {
    dot_prefix(a, b, i, j, a[i].len() as int)
}

/// Every pairwise product and every left-to-right partial sum arising in
/// the matrix product of `a` (`m` by `n`) and `b` (`n` by `q`) stays within
/// the range of the element type, so the product can be computed exactly.
pub open spec fn product_fits(a: Seq<Seq<i64>>, b: Seq<Seq<i64>>, m: int, n: int, q: int) -> bool {
    &&& forall|i: int, j: int, k: int|
        0 <= i < m && 0 <= j < q && 0 <= k < n
            ==> i64::MIN <= #[trigger] entry_product(a, b, i, j, k) <= i64::MAX
    &&& forall|i: int, j: int, k: int|
        0 <= i < m && 0 <= j < q && 0 <= k <= n
            ==> i64::MIN <= #[trigger] dot_prefix(a, b, i, j, k) <= i64::MAX
}

/// Every element of `a` (`m` by `n`) times `factor` stays within the range
/// of the element type, so the scaled matrix can be computed exactly.
pub open spec fn scale_fits(a: Seq<Seq<i64>>, factor: i64, m: int, n: int) -> bool {
    forall|i: int, j: int|
        0 <= i < m && 0 <= j < n ==> i64::MIN <= (#[trigger] a[i][j]) * factor <= i64::MAX
}

impl Matrix {
    /// The stored row count, as specifications see it.
    pub closed spec fn spec_rows(self) -> int {
        self.rows as int
    }

    /// The stored column count, as specifications see it.
    pub closed spec fn spec_cols(self) -> int {
        self.cols as int
    }

    /// Dimension invariant: the stored row count equals the number of rows
    /// actually present, and every row's length equals the stored column
    /// count. Every constructor establishes it and every operation
    /// preserves it.
    pub open spec fn wf(self) -> bool {
        &&& self@.len() == self.spec_rows()
        &&& forall|i: int| 0 <= i < self@.len() ==> (#[trigger] self@[i]).len() == self.spec_cols()
    }

    /// The row count.
    pub fn rows(&self) -> (r: usize)
        ensures
            r == self.spec_rows(),
    {
        self.rows
    }

    /// The column count.
    pub fn cols(&self) -> (c: usize)
        ensures
            c == self.spec_cols(),
    {
        self.cols
    }

    /// Create a new matrix with the given dimensions, every element equal
    /// to `init_value`. Any dimensions are accepted; a zero-sized matrix is
    /// structurally valid but has no element to read.
    pub fn new(rows: usize, cols: usize, init_value: i64) -> (m: Matrix)
        ensures
            m.wf(),
            m.spec_rows() == rows as int,
            m.spec_cols() == cols as int,
            forall|i: int, j: int|
                0 <= i < rows as int && 0 <= j < cols as int ==> m@[i][j] == init_value,
    {
        let mut value: Vec<Vec<i64>> = Vec::new();
        let mut i: usize = 0;
        while i < rows
            invariant
                i <= rows,
                value@.len() == i as int,
                forall|p: int| 0 <= p < i as int ==> (#[trigger] value@[p])@.len() == cols as int,
                forall|p: int, q: int|
                    0 <= p < i as int && 0 <= q < cols as int ==> value@[p]@[q] == init_value,
            decreases rows - i,
        {
            let mut row: Vec<i64> = Vec::new();
            let mut j: usize = 0;
            while j < cols
                invariant
                    j <= cols,
                    row@.len() == j as int,
                    forall|q: int| 0 <= q < j as int ==> row@[q] == init_value,
                decreases cols - j,
            {
                row.push(init_value);
                j = j + 1;
            }
            value.push(row);
            i = i + 1;
        }
        Matrix { value, rows, cols }
    }

    /// Create a matrix by reshaping a flat row-major sequence into `rows`
    /// rows of `cols` elements each. The dimensions must describe the
    /// sequence exactly; a violation is a programmer error, excluded by
    /// precondition rather than reported as a recoverable value.
    pub fn from_vec(vec: Vec<i64>, rows: usize, cols: usize) -> (m: Matrix)
        requires
            cols > 0,
            vec@.len() == (rows as int) * (cols as int),
        ensures
            m.wf(),
            m.spec_rows() == rows as int,
            m.spec_cols() == cols as int,
            forall|i: int, j: int|
                0 <= i < rows as int && 0 <= j < cols as int
                    ==> m@[i][j] == vec@[i * (cols as int) + j],
    {
        let len: usize = vec.len();
        let mut value: Vec<Vec<i64>> = Vec::new();
        let mut i: usize = 0;
        while i < rows
            invariant
                i <= rows,
                cols > 0,
                len == vec@.len(),
                vec@.len() == (rows as int) * (cols as int),
                value@.len() == i as int,
                forall|p: int| 0 <= p < i as int ==> (#[trigger] value@[p])@.len() == cols as int,
                forall|p: int, q: int|
                    0 <= p < i as int && 0 <= q < cols as int
                        ==> value@[p]@[q] == vec@[p * (cols as int) + q],
            decreases rows - i,
        {
            let mut row: Vec<i64> = Vec::new();
            let mut j: usize = 0;
            while j < cols
                invariant
                    i < rows,
                    j <= cols,
                    cols > 0,
                    len == vec@.len(),
                    vec@.len() == (rows as int) * (cols as int),
                    row@.len() == j as int,
                    forall|q: int|
                        0 <= q < j as int ==> row@[q] == vec@[(i as int) * (cols as int) + q],
                decreases cols - j,
            {
                proof {
                    assert((i as int) * (cols as int) + (j as int) < (rows as int) * (cols as int))
                        by (nonlinear_arith)
                        requires
                            i < rows,
                            j < cols,
                    ;
                }
                let idx: usize = i * cols + j;
                row.push(vec[idx]);
                j = j + 1;
            }
            value.push(row);
            i = i + 1;
        }
        Matrix { value, rows, cols }
    }

    /// Create a matrix from nested rows. The outer vector must be
    /// non-empty and every row must have the same length as the first;
    /// a violation is a programmer error, excluded by precondition.
    pub fn from_vec_vec(vec: Vec<Vec<i64>>) -> (m: Matrix)
        requires
            vec@.len() > 0,
            forall|i: int| 0 <= i < vec@.len() ==> (#[trigger] vec@[i])@.len() == vec@[0]@.len(),
        ensures
            m.wf(),
            m.spec_rows() == vec@.len(),
            m.spec_cols() == vec@[0]@.len(),
            forall|i: int| 0 <= i < vec@.len() ==> m@[i] == vec@[i]@,
    {
        let rows: usize = vec.len();
        let cols: usize = vec[0].len();
        Matrix { value: vec, rows, cols }
    }

    /// Read the element at the given zero-based coordinate. An
    /// out-of-bounds coordinate is a programmer error, excluded by
    /// precondition.
    pub fn get(&self, row: usize, col: usize) -> (v: i64)
        requires
            self.wf(),
            (row as int) < self.spec_rows(),
            (col as int) < self.spec_cols(),
        ensures
            v == self@[row as int][col as int],
    {
        proof {
            assert(self.value@.len() == self@.len());
            assert(self@[row as int] == self.value@[row as int]@);
        }
        self.value[row][col]
    }

    /// Overwrite the element at the given zero-based coordinate, leaving
    /// every other element and the dimensions unchanged. An out-of-bounds
    /// coordinate is a programmer error, excluded by precondition.
    pub fn set(&mut self, row: usize, col: usize, v: i64)
        requires
            old(self).wf(),
            (row as int) < old(self).spec_rows(),
            (col as int) < old(self).spec_cols(),
        ensures
            final(self).wf(),
            final(self).spec_rows() == old(self).spec_rows(),
            final(self).spec_cols() == old(self).spec_cols(),
            final(self)@ == old(self)@.update(
                row as int,
                old(self)@[row as int].update(col as int, v),
            ),
    {
        proof {
            assert(self.value@.len() == self@.len());
            assert(self@[row as int] == self.value@[row as int]@);
        }
        self.value[row][col] = v;
        proof {
            assert(self@ =~~= old(self)@.update(
                row as int,
                old(self)@[row as int].update(col as int, v),
            ));
        }
    }

    /// Multiply every element by `factor`, producing a new matrix of the
    /// same dimensions; the operand is not changed. Total but for the
    /// machine limit that every scaled element must fit the element type.
    pub fn scale(&self, factor: i64) -> (r: Matrix)
        requires
            self.wf(),
            scale_fits(self@, factor, self.spec_rows(), self.spec_cols()),
        ensures
            r.wf(),
            r.spec_rows() == self.spec_rows(),
            r.spec_cols() == self.spec_cols(),
            forall|i: int, j: int|
                0 <= i < self.spec_rows() && 0 <= j < self.spec_cols()
                    ==> r@[i][j] == self@[i][j] * factor,
    {
        let rows: usize = self.rows;
        let cols: usize = self.cols;
        let mut value: Vec<Vec<i64>> = Vec::new();
        let mut i: usize = 0;
        while i < rows
            invariant
                i <= rows,
                self.wf(),
                rows as int == self.spec_rows(),
                cols as int == self.spec_cols(),
                scale_fits(self@, factor, self.spec_rows(), self.spec_cols()),
                value@.len() == i as int,
                forall|p: int| 0 <= p < i as int ==> (#[trigger] value@[p])@.len() == cols as int,
                forall|p: int, q: int|
                    0 <= p < i as int && 0 <= q < cols as int
                        ==> value@[p]@[q] == self@[p][q] * factor,
            decreases rows - i,
        {
            let mut row: Vec<i64> = Vec::new();
            let mut j: usize = 0;
            while j < cols
                invariant
                    i < rows,
                    j <= cols,
                    self.wf(),
                    rows as int == self.spec_rows(),
                    cols as int == self.spec_cols(),
                    scale_fits(self@, factor, self.spec_rows(), self.spec_cols()),
                    row@.len() == j as int,
                    forall|q: int|
                        0 <= q < j as int ==> row@[q] == self@[i as int][q] * factor,
                decreases cols - j,
            {
                let v: i64 = self.get(i, j);
                row.push(v * factor);
                j = j + 1;
            }
            value.push(row);
            i = i + 1;
        }
        Matrix { value, rows, cols }
    }

    /// Multiply this matrix (`m` by `n`) by `other` (`p` by `q`) under
    /// standard matrix-product semantics, summing each entry left to right
    /// over the inner dimension. Neither operand is changed. Returns the
    /// product exactly when `n == p`; a mismatch is the one recoverable
    /// error of the library.
    pub fn multiply(&self, other: &Matrix) -> (r: Result<Matrix, MatrixError>)
        requires
            self.wf(),
            other.wf(),
            self.spec_cols() == other.spec_rows() ==> product_fits(
                self@,
                other@,
                self.spec_rows(),
                self.spec_cols(),
                other.spec_cols(),
            ),
        ensures
            match r {
                Ok(c) => {
                    &&& self.spec_cols() == other.spec_rows()
                    &&& c.wf()
                    &&& c.spec_rows() == self.spec_rows()
                    &&& c.spec_cols() == other.spec_cols()
                    &&& forall|i: int, j: int|
                        0 <= i < c.spec_rows() && 0 <= j < c.spec_cols()
                            ==> c@[i][j] == product_entry(self@, other@, i, j)
                },
                Err(e) => {
                    &&& self.spec_cols() != other.spec_rows()
                    &&& e == MatrixError::DimensionMismatch
                },
            },
    {
        if self.cols != other.rows {
            return Err(MatrixError::DimensionMismatch);
        }
        let rows: usize = self.rows;
        let inner: usize = self.cols;
        let cols: usize = other.cols;
        let mut value: Vec<Vec<i64>> = Vec::new();
        let mut i: usize = 0;
        while i < rows
            invariant
                i <= rows,
                self.wf(),
                other.wf(),
                rows as int == self.spec_rows(),
                inner as int == self.spec_cols(),
                inner as int == other.spec_rows(),
                cols as int == other.spec_cols(),
                product_fits(self@, other@, rows as int, inner as int, cols as int),
                value@.len() == i as int,
                forall|p: int| 0 <= p < i as int ==> (#[trigger] value@[p])@.len() == cols as int,
                forall|p: int, q: int|
                    0 <= p < i as int && 0 <= q < cols as int
                        ==> value@[p]@[q] == product_entry(self@, other@, p, q),
            decreases rows - i,
        {
            let mut row: Vec<i64> = Vec::new();
            let mut j: usize = 0;
            while j < cols
                invariant
                    i < rows,
                    j <= cols,
                    self.wf(),
                    other.wf(),
                    rows as int == self.spec_rows(),
                    inner as int == self.spec_cols(),
                    inner as int == other.spec_rows(),
                    cols as int == other.spec_cols(),
                    product_fits(self@, other@, rows as int, inner as int, cols as int),
                    row@.len() == j as int,
                    forall|q: int|
                        0 <= q < j as int ==> row@[q] == product_entry(self@, other@, i as int, q),
                decreases cols - j,
            {
                let mut acc: i64 = 0;
                let mut k: usize = 0;
                while k < inner
                    invariant
                        i < rows,
                        j < cols,
                        k <= inner,
                        self.wf(),
                        other.wf(),
                        rows as int == self.spec_rows(),
                        inner as int == self.spec_cols(),
                        inner as int == other.spec_rows(),
                        cols as int == other.spec_cols(),
                        product_fits(self@, other@, rows as int, inner as int, cols as int),
                        acc as int == dot_prefix(self@, other@, i as int, j as int, k as int),
                    decreases inner - k,
                {
                    let a_ik: i64 = self.get(i, k);
                    let b_kj: i64 = other.get(k, j);
                    proof {
                        assert(entry_product(self@, other@, i as int, j as int, k as int)
                            == (a_ik as int) * (b_kj as int));
                        assert(dot_prefix(self@, other@, i as int, j as int, k as int + 1)
                            == dot_prefix(self@, other@, i as int, j as int, k as int)
                                + entry_product(self@, other@, i as int, j as int, k as int));
                    }
                    let p: i64 = a_ik * b_kj;
                    acc = acc + p;
                    k = k + 1;
                }
                proof {
                    assert(acc as int == product_entry(self@, other@, i as int, j as int));
                }
                row.push(acc);
                j = j + 1;
            }
            value.push(row);
            i = i + 1;
        }
        Ok(Matrix { value, rows, cols })
    }
}

/// Scaling any matrix by zero yields a matrix of the same dimensions in
/// which every element is zero. The hypotheses are exactly what `scale`
/// ensures of its result `r` when the factor is zero.
pub proof fn lemma_scale_zero(m: Matrix, r: Matrix)
    requires
        m.wf(),
        r.wf(),
        r.spec_rows() == m.spec_rows(),
        r.spec_cols() == m.spec_cols(),
        forall|i: int, j: int|
            0 <= i < m.spec_rows() && 0 <= j < m.spec_cols() ==> r@[i][j] == m@[i][j] * 0,
    ensures
        forall|i: int, j: int|
            0 <= i < r.spec_rows() && 0 <= j < r.spec_cols() ==> r@[i][j] == 0,
{
}

/// Round trip: a matrix built from nested rows reproduces them exactly,
/// element by element, at every coordinate. The hypotheses are exactly
/// what `from_vec_vec` ensures of its result `m` for row data `data`.
pub proof fn lemma_from_rows_round_trip(data: Seq<Seq<i64>>, m: Matrix)
    requires
        m.wf(),
        data.len() > 0,
        forall|i: int| 0 <= i < data.len() ==> (#[trigger] data[i]).len() == data[0].len(),
        m.spec_rows() == data.len(),
        m.spec_cols() == data[0].len(),
        forall|i: int| 0 <= i < data.len() ==> m@[i] == data[i],
    ensures
        forall|i: int, j: int|
            0 <= i < data.len() && 0 <= j < data[i].len() ==> m@[i][j] == data[i][j],
{
}

} // verus!
