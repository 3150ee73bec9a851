//! The dense, row-major matrix that the engine reads its leaves from and
//! writes its one output buffer into.

use vstd::prelude::*;
use vstd::pervasive::VecAdditionalExecFns;

use crate::interfaces::Numeric;

verus! {

/// A dense matrix stored row-major. The view `m@` is the flat element
/// sequence; `spec_entry` reads one cell of it.
#[derive(Clone, Debug, PartialEq, Eq)]
pub struct Mat<T> {
    rows: usize,
    cols: usize,
    data: Vec<T>,
}

impl<T> View for Mat<T> {
    type V = Seq<T>;

    closed spec fn view(&self) -> Seq<T> {
        self.data@
    }
}

/// Both operands positive-bounded cells index inside the flat buffer.
proof fn lemma_rm_index_bound(rows: int, cols: int, i: int, j: int)
    by (nonlinear_arith)
    requires
        0 <= i < rows,
        0 <= j < cols,
    ensures
        0 <= i * cols + j < rows * cols,
{
}

/// Two distinct cells of one matrix never share a flat index.
proof fn lemma_rm_index_injective(cols: int, i: int, j: int, i2: int, j2: int)
    by (nonlinear_arith)
    requires
        0 <= j < cols,
        0 <= j2 < cols,
        0 <= i,
        0 <= i2,
        i != i2 || j != j2,
    ensures
        i * cols + j != i2 * cols + j2,
{
}

impl<T> Mat<T> {
    pub closed spec fn spec_rows(self) -> usize {
        self.rows
    }

    pub closed spec fn spec_cols(self) -> usize {
        self.cols
    }

    /// The one invariant of the representation: the flat buffer holds
    /// exactly `rows * cols` elements.
    pub closed spec fn wf(self) -> bool {
        self.data@.len() == self.rows * self.cols
    }

    /// The cell in row `i`, column `j`.
    pub closed spec fn spec_entry(self, i: int, j: int) -> T {
        self.data@[i * self.cols + j]
    }

    /// The flat view of a well-formed matrix holds one element per cell.
    pub proof fn view_len(&self)
        requires
            self.wf(),
        ensures
            self@.len() == self.spec_rows() * self.spec_cols(),
    {
    }

    /// Where a cell sits in the flat view: row-major order.
    pub proof fn entry_eq(&self, i: int, j: int)
        requires
            self.wf(),
            0 <= i < self.spec_rows(),
            0 <= j < self.spec_cols(),
        ensures
            0 <= i * self.spec_cols() + j < self@.len(),
            self.spec_entry(i, j) == self@[i * self.spec_cols() + j],
    {
        lemma_rm_index_bound(self.rows as int, self.cols as int, i, j);
    }

    pub fn rows(&self) -> (n: usize)
        ensures
            n == self.spec_rows(),
    {
        self.rows
    }

    pub fn cols(&self) -> (n: usize)
        ensures
            n == self.spec_cols(),
    {
        self.cols
    }

    /// Builds a matrix from its flat row-major element list; refused when
    /// the list does not hold exactly `rows * cols` elements.
    pub fn from_row_major(rows: usize, cols: usize, data: Vec<T>) -> (r: Option<Mat<T>>)
        ensures
            match r {
                Some(m) => {
                    &&& m.wf()
                    &&& m.spec_rows() == rows
                    &&& m.spec_cols() == cols
                    &&& m@ == data@
                },
                None => rows * cols != data@.len(),
            },
    {
        let len = data.len();
        match rows.checked_mul(cols) {
            Some(n) => {
                if n == len {
                    Some(Mat { rows, cols, data })
                } else {
                    None
                }
            },
            None => None,
        }
    }
}

impl<T: Copy> Mat<T> {
    /// Builds a matrix from a flat row-major element list whose length is
    /// already known to match.
    pub fn from_flat(rows: usize, cols: usize, data: Vec<T>) -> (m: Mat<T>)
        requires
            data@.len() == rows * cols,
        ensures
            m.wf(),
            m.spec_rows() == rows,
            m.spec_cols() == cols,
            m@ == data@,
            forall|i: int, j: int|
                0 <= i < rows && 0 <= j < cols ==> m.spec_entry(i, j) == data@[i * cols + j],
    {
        let m = Mat { rows, cols, data };
        proof {
            assert forall|i: int, j: int|
                0 <= i < rows && 0 <= j < cols implies m.spec_entry(i, j) == m.data@[i * cols
                + j] by {
                lemma_rm_index_bound(rows as int, cols as int, i, j);
            }
        }
        m
    }

    /// A fresh matrix with the same shape and the same cells.
    pub fn duplicate(&self) -> (r: Mat<T>)
        ensures
            r.spec_rows() == self.spec_rows(),
            r.spec_cols() == self.spec_cols(),
            r@ == self@,
            r.wf() == self.wf(),
            self.wf() ==> forall|i: int, j: int|
                0 <= i < self.spec_rows() && 0 <= j < self.spec_cols() ==> r.spec_entry(i, j)
                    == self.spec_entry(i, j),
    {
        let n = self.data.len();
        let mut data: Vec<T> = Vec::new();
        let mut k: usize = 0;
        while k < n
            invariant
                k <= n,
                n == self.data@.len(),
                data@ =~= self.data@.take(k as int),
            decreases n - k,
        {
            data.push(self.data[k]);
            proof {
                assert(data@ =~= self.data@.take(k + 1));
            }
            k = k + 1;
        }
        proof {
            assert(data@ =~= self.data@);
        }
        let r = Mat { rows: self.rows, cols: self.cols, data };
        proof {
            if self.wf() {
                assert forall|i: int, j: int|
                    0 <= i < self.spec_rows() && 0 <= j < self.spec_cols() implies r.spec_entry(
                    i,
                    j,
                ) == self.spec_entry(i, j) by {
                    lemma_rm_index_bound(self.rows as int, self.cols as int, i, j);
                }
            }
        }
        r
    }

    pub fn get(&self, i: usize, j: usize) -> (v: T)
        requires
            self.wf(),
            i < self.spec_rows(),
            j < self.spec_cols(),
        ensures
            v == self.spec_entry(i as int, j as int),
    {
        proof {
            lemma_rm_index_bound(self.rows as int, self.cols as int, i as int, j as int);
        }
        let n = self.data.len();
        self.data[i * self.cols + j]
    }

    pub fn set(&mut self, i: usize, j: usize, v: T)
        requires
            old(self).wf(),
            i < old(self).spec_rows(),
            j < old(self).spec_cols(),
        ensures
            final(self).wf(),
            final(self).spec_rows() == old(self).spec_rows(),
            final(self).spec_cols() == old(self).spec_cols(),
            final(self).spec_entry(i as int, j as int) == v,
            forall|i2: int, j2: int|
                0 <= i2 < final(self).spec_rows() && 0 <= j2 < final(self).spec_cols() && (i2 != i
                    || j2 != j) ==> final(self).spec_entry(i2, j2) == old(self).spec_entry(i2, j2),
    {
        proof {
            lemma_rm_index_bound(self.rows as int, self.cols as int, i as int, j as int);
        }
        let n = self.data.len();
        self.data.set(i * self.cols + j, v);
        proof {
            assert forall|i2: int, j2: int|
                0 <= i2 < self.spec_rows() && 0 <= j2 < self.spec_cols() && (i2 != i || j2 != j)
                    implies self.spec_entry(i2, j2) == old(self).spec_entry(i2, j2) by {
                lemma_rm_index_bound(self.rows as int, self.cols as int, i2, j2);
                lemma_rm_index_injective(self.cols as int, i as int, j as int, i2, j2);
            }
        }
    }

    /// Copies every cell of `self` into `dest`, placed with its top-left
    /// corner at `(r0, c0)`; every cell outside that rectangle keeps its
    /// old value.
    #[verifier::loop_isolation(false)]
    pub fn copy_into(&self, dest: &mut Mat<T>, r0: usize, c0: usize)
        requires
            self.wf(),
            old(dest).wf(),
            r0 + self.spec_rows() <= old(dest).spec_rows(),
            c0 + self.spec_cols() <= old(dest).spec_cols(),
        ensures
            final(dest).wf(),
            final(dest).spec_rows() == old(dest).spec_rows(),
            final(dest).spec_cols() == old(dest).spec_cols(),
            forall|a: int, b: int|
                0 <= a < self.spec_rows() && 0 <= b < self.spec_cols()
                    ==> final(dest).spec_entry(r0 + a, c0 + b) == self.spec_entry(a, b),
            forall|a: int, b: int|
                0 <= a < final(dest).spec_rows() && 0 <= b < final(dest).spec_cols()
                    && !(r0 <= a < r0 + self.spec_rows() && c0 <= b < c0 + self.spec_cols())
                    ==> final(dest).spec_entry(a, b) == old(dest).spec_entry(a, b),
    {
        let rows = self.rows();
        let cols = self.cols();
        let mut i: usize = 0;
        while i < rows
            invariant
                i <= rows,
                dest.wf(),
                dest.spec_rows() == old(dest).spec_rows(),
                dest.spec_cols() == old(dest).spec_cols(),
                forall|a: int, b: int|
                    0 <= a < i && 0 <= b < cols
                        ==> dest.spec_entry(r0 + a, c0 + b) == self.spec_entry(a, b),
                forall|a: int, b: int|
                    0 <= a < dest.spec_rows() && 0 <= b < dest.spec_cols()
                        && !(r0 <= a < r0 + i && c0 <= b < c0 + cols)
                        ==> dest.spec_entry(a, b) == old(dest).spec_entry(a, b),
            decreases rows - i,
        {
            let mut j: usize = 0;
            while j < cols
                invariant
                    i < rows,
                    j <= cols,
                    dest.wf(),
                    dest.spec_rows() == old(dest).spec_rows(),
                    dest.spec_cols() == old(dest).spec_cols(),
                    forall|a: int, b: int|
                        0 <= a < i && 0 <= b < cols
                            ==> dest.spec_entry(r0 + a, c0 + b) == self.spec_entry(a, b),
                    forall|b: int|
                        0 <= b < j ==> dest.spec_entry(r0 + i, c0 + b) == self.spec_entry(
                            i as int,
                            b,
                        ),
                    forall|a: int, b: int|
                        0 <= a < dest.spec_rows() && 0 <= b < dest.spec_cols()
                            && !(r0 <= a < r0 + i && c0 <= b < c0 + cols)
                            && !(a == r0 + i && c0 <= b < c0 + j)
                            ==> dest.spec_entry(a, b) == old(dest).spec_entry(a, b),
                decreases cols - j,
            {
                let v = self.get(i, j);
                dest.set(r0 + i, c0 + j, v);
                j = j + 1;
            }
            i = i + 1;
        }
    }
}

impl<T: Numeric> Mat<T> {
    /// One dense, zero-filled buffer of the given shape.
    pub fn zeros(rows: usize, cols: usize) -> (m: Mat<T>)
        requires
            rows * cols <= usize::MAX,
        ensures
            m.wf(),
            m.spec_rows() == rows,
            m.spec_cols() == cols,
            forall|i: int, j: int|
                0 <= i < rows && 0 <= j < cols ==> m.spec_entry(i, j) == T::zero_spec(),
    {
        let n = rows * cols;
        let mut data: Vec<T> = Vec::new();
        while data.len() < n
            invariant
                data@.len() <= n,
                forall|k: int| 0 <= k < data@.len() ==> data@[k] == T::zero_spec(),
            decreases n - data@.len(),
        {
            data.push(T::zero());
        }
        let m = Mat { rows, cols, data };
        proof {
            assert forall|i: int, j: int|
                0 <= i < rows && 0 <= j < cols implies m.spec_entry(i, j) == T::zero_spec() by {
                lemma_rm_index_bound(rows as int, cols as int, i, j);
            }
        }
        m
    }
}

} // verus!
