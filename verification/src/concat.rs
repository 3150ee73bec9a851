//! The block-matrix composition engine.

use vstd::prelude::*;

use crate::dims::{Axis, Dimension, ShapeMismatch, spec_dim_add, spec_unify, dim_add, unify};
use crate::interfaces::Numeric;
use crate::mat::Mat;
use vstd::pervasive::unreached;

verus! {

/// A block expression: a borrowed leaf matrix, or two blocks joined side
/// by side (`HCat`) or stacked (`VCat`). The expression never owns or
/// mutates leaf data; it is read once when the expression is populated
/// into an output buffer.
pub enum Block<'a, T> {
    Leaf { mat: &'a Mat<T>, rows: Dimension, cols: Dimension },
    HCat { left: Box<Block<'a, T>>, right: Box<Block<'a, T>> },
    VCat { top: Box<Block<'a, T>>, bottom: Box<Block<'a, T>> },
}

impl<'a, T> Block<'a, T> {
    /// Every leaf's dimension tags carry the leaf's true sizes.
    pub open spec fn wf(self) -> bool
        decreases self,
    {
        match self {
            Block::Leaf { mat, rows, cols } => mat.wf() && rows.value_spec() == mat.spec_rows()
                && cols.value_spec() == mat.spec_cols(),
            Block::HCat { left, right } => left.wf() && right.wf(),
            Block::VCat { top, bottom } => top.wf() && bottom.wf(),
        }
    }

    /// The row count of the block, counting a horizontal join by its left
    /// child (the two agree whenever the shape computation succeeds).
    pub open spec fn spec_rows(self) -> int
        decreases self,
    {
        match self {
            Block::Leaf { mat, .. } => mat.spec_rows() as int,
            Block::HCat { left, .. } => left.spec_rows(),
            Block::VCat { top, bottom } => top.spec_rows() + bottom.spec_rows(),
        }
    }

    /// The column count of the block, counting a vertical join by its top
    /// child.
    pub open spec fn spec_cols(self) -> int
        decreases self,
    {
        match self {
            Block::Leaf { mat, .. } => mat.spec_cols() as int,
            Block::HCat { left, right } => left.spec_cols() + right.spec_cols(),
            Block::VCat { top, .. } => top.spec_cols(),
        }
    }

    /// The value at row `i`, column `j` of the composed block.
    pub open spec fn entry(self, i: int, j: int) -> T
        decreases self,
    {
        match self {
            Block::Leaf { mat, .. } => mat.spec_entry(i, j),
            Block::HCat { left, right } => if j < left.spec_cols() {
                left.entry(i, j)
            } else {
                right.entry(i, j - left.spec_cols())
            },
            Block::VCat { top, bottom } => if i < top.spec_rows() {
                top.entry(i, j)
            } else {
                bottom.entry(i - top.spec_rows(), j)
            },
        }
    }

    /// What the shape computation returns: children left to right, then
    /// the unification of the axis the two children must share, then the
    /// sum of the other axis.
    pub open spec fn spec_shape(self) -> Result<(Dimension, Dimension), ShapeMismatch>
        decreases self,
    {
        match self {
            Block::Leaf { rows, cols, .. } => Ok((rows, cols)),
            Block::HCat { left, right } => match left.spec_shape() {
                Err(e) => Err(e),
                Ok((r1, c1)) => match right.spec_shape() {
                    Err(e) => Err(e),
                    Ok((r2, c2)) => match spec_unify(r1, r2) {
                        Err((a, b)) => Err(ShapeMismatch { axis: Axis::Rows, left: a, right: b }),
                        Ok(r) => Ok((r, spec_dim_add(c1, c2))),
                    },
                },
            },
            Block::VCat { top, bottom } => match top.spec_shape() {
                Err(e) => Err(e),
                Ok((r1, c1)) => match bottom.spec_shape() {
                    Err(e) => Err(e),
                    Ok((r2, c2)) => match spec_unify(c1, c2) {
                        Err((a, b)) => Err(ShapeMismatch { axis: Axis::Cols, left: a, right: b }),
                        Ok(c) => Ok((spec_dim_add(r1, r2), c)),
                    },
                },
            },
        }
    }

    /// Every dimension sum the shape computation reaches stays within a
    /// machine word.
    pub open spec fn fits(self) -> bool
        decreases self,
    {
        match self {
            Block::Leaf { .. } => true,
            Block::HCat { left, right } => left.fits() && (left.spec_shape() is Ok
                ==> right.fits()) && (self.spec_shape() is Ok ==> left.spec_cols()
                + right.spec_cols() <= usize::MAX),
            Block::VCat { top, bottom } => top.fits() && (top.spec_shape() is Ok
                ==> bottom.fits()) && (self.spec_shape() is Ok ==> top.spec_rows()
                + bottom.spec_rows() <= usize::MAX),
        }
    }

    /// Whatever a successful shape computation reports carries exactly the
    /// block's row and column counts as its values.
    pub open spec fn shape_reports_counts(self) -> bool {
        self.spec_shape() matches Ok(s) ==> s.0.value_spec() == self.spec_rows()
            && s.1.value_spec() == self.spec_cols()
    }

    /// A successful shape computation reports exactly the block's row and
    /// column counts.
    pub proof fn shape_values(self)
        requires
            self.wf(),
            self.fits(),
        ensures
            self.shape_reports_counts(),
        decreases self,
    {
        match &self {
            Block::Leaf { .. } => {},
            Block::HCat { left, right } => {
                left.shape_values();
                if self.spec_shape() is Ok {
                    right.shape_values();
                }
            },
            Block::VCat { top, bottom } => {
                top.shape_values();
                if self.spec_shape() is Ok {
                    bottom.shape_values();
                }
            },
        }
    }

    /// A block never reports a negative row or column count.
    pub proof fn counts_nonneg(self)
        ensures
            self.spec_rows() >= 0,
            self.spec_cols() >= 0,
        decreases self,
    {
        match &self {
            Block::Leaf { .. } => {},
            Block::HCat { left, right } => {
                left.counts_nonneg();
                right.counts_nonneg();
            },
            Block::VCat { top, bottom } => {
                top.counts_nonneg();
                bottom.counts_nonneg();
            },
        }
    }

    /// When both sides already carry a statically known row count, the two
    /// counts agree: the condition under which a horizontal join may be
    /// built at all.
    pub open spec fn rows_statically_compatible(a: Block<'a, T>, b: Block<'a, T>) -> bool {
        match (a.spec_shape(), b.spec_shape()) {
            (Ok(sa), Ok(sb)) => sa.0.is_statically_known() && sb.0.is_statically_known()
                ==> sa.0.value_spec() == sb.0.value_spec(),
            _ => true,
        }
    }

    /// The column-count twin of `rows_statically_compatible`, for vertical
    /// joins.
    pub open spec fn cols_statically_compatible(a: Block<'a, T>, b: Block<'a, T>) -> bool {
        match (a.spec_shape(), b.spec_shape()) {
            (Ok(sa), Ok(sb)) => sa.1.is_statically_known() && sb.1.is_statically_known()
                ==> sa.1.value_spec() == sb.1.value_spec(),
            _ => true,
        }
    }

    /// Wraps a borrowed matrix as a leaf whose sizes count as only known
    /// at run time.
    pub fn leaf(mat: &'a Mat<T>) -> (r: Block<'a, T>)
        requires
            mat.wf(),
        ensures
            r == (Block::Leaf {
                mat,
                rows: Dimension::DynamicallyKnown(mat.spec_rows()),
                cols: Dimension::DynamicallyKnown(mat.spec_cols()),
            }),
            r.wf(),
            r.fits(),
            r.spec_shape() == Ok::<(Dimension, Dimension), ShapeMismatch>(
                (
                    Dimension::DynamicallyKnown(mat.spec_rows()),
                    Dimension::DynamicallyKnown(mat.spec_cols()),
                ),
            ),
            r.spec_rows() == mat.spec_rows(),
            r.spec_cols() == mat.spec_cols(),
            forall|i: int, j: int| #[trigger] r.entry(i, j) == mat.spec_entry(i, j),
    {
        let rows = Dimension::DynamicallyKnown(mat.rows());
        let cols = Dimension::DynamicallyKnown(mat.cols());
        Block::Leaf { mat, rows, cols }
    }

    /// Wraps a borrowed matrix as a leaf whose sizes count as fixed at
    /// construction, so that mismatches against other fixed sizes are
    /// refused when the expression is built rather than when it is
    /// evaluated.
    pub fn leaf_fixed(mat: &'a Mat<T>) -> (r: Block<'a, T>)
        requires
            mat.wf(),
        ensures
            r == (Block::Leaf {
                mat,
                rows: Dimension::StaticallyKnown(mat.spec_rows()),
                cols: Dimension::StaticallyKnown(mat.spec_cols()),
            }),
            r.wf(),
            r.fits(),
            r.spec_shape() == Ok::<(Dimension, Dimension), ShapeMismatch>(
                (
                    Dimension::StaticallyKnown(mat.spec_rows()),
                    Dimension::StaticallyKnown(mat.spec_cols()),
                ),
            ),
            r.spec_rows() == mat.spec_rows(),
            r.spec_cols() == mat.spec_cols(),
            forall|i: int, j: int| #[trigger] r.entry(i, j) == mat.spec_entry(i, j),
    {
        let rows = Dimension::StaticallyKnown(mat.rows());
        let cols = Dimension::StaticallyKnown(mat.cols());
        Block::Leaf { mat, rows, cols }
    }

    /// Joins two blocks side by side. A disagreement between two
    /// statically known row counts is refused here, when the expression is
    /// built; row counts only known at run time are checked when the shape
    /// is computed.
    pub fn hcat(left: Block<'a, T>, right: Block<'a, T>) -> (r: Block<'a, T>)
        requires
            Block::rows_statically_compatible(left, right),
        ensures
            r == (Block::HCat { left: Box::new(left), right: Box::new(right) }),
    {
        Block::HCat { left: Box::new(left), right: Box::new(right) }
    }

    /// Stacks two blocks. A disagreement between two statically known
    /// column counts is refused here, when the expression is built; column
    /// counts only known at run time are checked when the shape is
    /// computed.
    pub fn vcat(top: Block<'a, T>, bottom: Block<'a, T>) -> (r: Block<'a, T>)
        requires
            Block::cols_statically_compatible(top, bottom),
        ensures
            r == (Block::VCat { top: Box::new(top), bottom: Box::new(bottom) }),
    {
        Block::VCat { top: Box::new(top), bottom: Box::new(bottom) }
    }

    /// Computes the shape of the block without touching element data:
    /// shared axes are unified left to right and top to bottom, the other
    /// axis is summed. The first disagreement is reported as a
    /// `ShapeMismatch` naming the axis and both values.
    pub fn shape(&self) -> (r: Result<(Dimension, Dimension), ShapeMismatch>)
        requires
            self.wf(),
            self.fits(),
        ensures
            r == self.spec_shape(),
        decreases self,
    {
        match self {
            Block::Leaf { rows, cols, .. } => Ok((*rows, *cols)),
            Block::HCat { left, right } => {
                let (r1, c1) = match left.shape() {
                    Ok(s) => s,
                    Err(e) => {
                        return Err(e);
                    },
                };
                let (r2, c2) = match right.shape() {
                    Ok(s) => s,
                    Err(e) => {
                        return Err(e);
                    },
                };
                match unify(r1, r2) {
                    Ok(r) => {
                        proof {
                            left.counts_nonneg();
                            right.counts_nonneg();
                            left.shape_values();
                            right.shape_values();
                        }
                        Ok((r, dim_add(c1, c2)))
                    },
                    Err((a, b)) => Err(ShapeMismatch { axis: Axis::Rows, left: a, right: b }),
                }
            },
            Block::VCat { top, bottom } => {
                let (r1, c1) = match top.shape() {
                    Ok(s) => s,
                    Err(e) => {
                        return Err(e);
                    },
                };
                let (r2, c2) = match bottom.shape() {
                    Ok(s) => s,
                    Err(e) => {
                        return Err(e);
                    },
                };
                match unify(c1, c2) {
                    Ok(c) => {
                        proof {
                            top.counts_nonneg();
                            bottom.counts_nonneg();
                            top.shape_values();
                            bottom.shape_values();
                        }
                        Ok((dim_add(r1, r2), c))
                    },
                    Err((a, b)) => Err(ShapeMismatch { axis: Axis::Cols, left: a, right: b }),
                }
            },
        }
    }

    /// The row and column counts of a block whose shape computation
    /// succeeds, as plain machine words.
    pub fn dims(&self) -> (d: (usize, usize))
        requires
            self.wf(),
            self.fits(),
            self.spec_shape() is Ok,
        ensures
            d.0 == self.spec_rows(),
            d.1 == self.spec_cols(),
    {
        proof {
            self.shape_values();
        }
        match self.shape() {
            Ok(s) => (s.0.value(), s.1.value()),
            Err(_) => unreached(),
        }
    }
}

impl<'a, T: Copy> Block<'a, T> {
    /// Writes every cell of the block into `out`, placed with its top-left
    /// corner at `(r0, c0)`: a leaf is copied cell by cell, a join writes
    /// its two children into the two sub-rectangles that exactly tile its
    /// own. Every cell outside the block's rectangle keeps its old value.
    pub fn populate(&self, out: &mut Mat<T>, r0: usize, c0: usize)
        requires
            self.wf(),
            self.fits(),
            self.spec_shape() is Ok,
            old(out).wf(),
            r0 + self.spec_rows() <= old(out).spec_rows(),
            c0 + self.spec_cols() <= old(out).spec_cols(),
        ensures
            final(out).wf(),
            final(out).spec_rows() == old(out).spec_rows(),
            final(out).spec_cols() == old(out).spec_cols(),
            forall|i: int, j: int|
                0 <= i < self.spec_rows() && 0 <= j < self.spec_cols()
                    ==> final(out).spec_entry(r0 + i, c0 + j) == self.entry(i, j),
            forall|i: int, j: int|
                0 <= i < final(out).spec_rows() && 0 <= j < final(out).spec_cols()
                    && !(r0 <= i < r0 + self.spec_rows() && c0 <= j < c0 + self.spec_cols())
                    ==> final(out).spec_entry(i, j) == old(out).spec_entry(i, j),
        decreases self,
    {
        match self {
            Block::Leaf { mat, .. } => {
                mat.copy_into(out, r0, c0);
                proof {
                    assert forall|i: int, j: int|
                        0 <= i < self.spec_rows() && 0 <= j < self.spec_cols() implies out.spec_entry(
                        r0 + i,
                        c0 + j,
                    ) == self.entry(i, j) by {
                        assert(out.spec_entry(r0 + i, c0 + j) == mat.spec_entry(i, j));
                    }
                }
            },
            Block::HCat { left, right } => {
                proof {
                    left.counts_nonneg();
                    right.counts_nonneg();
                    left.shape_values();
                    right.shape_values();
                    assert(left.spec_rows() == right.spec_rows());
                }
                let (_, lc) = left.dims();
                left.populate(out, r0, c0);
                let ghost mid = *out;
                right.populate(out, r0, c0 + lc);
                proof {
                    assert forall|i: int, j: int|
                        0 <= i < self.spec_rows() && 0 <= j < self.spec_cols() implies out.spec_entry(
                        r0 + i,
                        c0 + j,
                    ) == self.entry(i, j) by {
                        if j < lc {
                            assert(out.spec_entry(r0 + i, c0 + j) == mid.spec_entry(r0 + i, c0 + j));
                            assert(mid.spec_entry(r0 + i, c0 + j) == left.entry(i, j));
                        } else {
                            assert(out.spec_entry(r0 + i, (c0 + lc) + (j - lc)) == right.entry(
                                i,
                                j - lc,
                            ));
                            assert(c0 + j == (c0 + lc) + (j - lc));
                        }
                    }
                    assert forall|i: int, j: int|
                        0 <= i < out.spec_rows() && 0 <= j < out.spec_cols() && !(r0 <= i < r0
                            + self.spec_rows() && c0 <= j < c0 + self.spec_cols()) implies out.spec_entry(
                        i,
                        j,
                    ) == old(out).spec_entry(i, j) by {
                        assert(out.spec_entry(i, j) == mid.spec_entry(i, j));
                        assert(mid.spec_entry(i, j) == old(out).spec_entry(i, j));
                    }
                }
            },
            Block::VCat { top, bottom } => {
                proof {
                    top.counts_nonneg();
                    bottom.counts_nonneg();
                    top.shape_values();
                    bottom.shape_values();
                    assert(top.spec_cols() == bottom.spec_cols());
                }
                let (tr, _) = top.dims();
                top.populate(out, r0, c0);
                let ghost mid = *out;
                bottom.populate(out, r0 + tr, c0);
                proof {
                    assert forall|i: int, j: int|
                        0 <= i < self.spec_rows() && 0 <= j < self.spec_cols() implies out.spec_entry(
                        r0 + i,
                        c0 + j,
                    ) == self.entry(i, j) by {
                        if i < tr {
                            assert(out.spec_entry(r0 + i, c0 + j) == mid.spec_entry(r0 + i, c0 + j));
                            assert(mid.spec_entry(r0 + i, c0 + j) == top.entry(i, j));
                        } else {
                            assert(out.spec_entry((r0 + tr) + (i - tr), c0 + j) == bottom.entry(
                                i - tr,
                                j,
                            ));
                            assert(r0 + i == (r0 + tr) + (i - tr));
                        }
                    }
                    assert forall|i: int, j: int|
                        0 <= i < out.spec_rows() && 0 <= j < out.spec_cols() && !(r0 <= i < r0
                            + self.spec_rows() && c0 <= j < c0 + self.spec_cols()) implies out.spec_entry(
                        i,
                        j,
                    ) == old(out).spec_entry(i, j) by {
                        assert(out.spec_entry(i, j) == mid.spec_entry(i, j));
                        assert(mid.spec_entry(i, j) == old(out).spec_entry(i, j));
                    }
                }
            },
        }
    }
}

/// Computes the shape of a composed expression once and allocates one
/// dense, zero-filled buffer of that shape. Shape disagreements must
/// already have been resolved by the shape computation; the zero fill is
/// what a cell never covered by a leaf keeps.
pub fn allocate_block_output<'a, T: Numeric>(block: &Block<'a, T>) -> (out: Mat<T>)
    requires
        block.wf(),
        block.fits(),
        block.spec_shape() is Ok,
        block.spec_rows() * block.spec_cols() <= usize::MAX,
    ensures
        out.wf(),
        out.spec_rows() == block.spec_rows(),
        out.spec_cols() == block.spec_cols(),
        forall|i: int, j: int|
            0 <= i < out.spec_rows() && 0 <= j < out.spec_cols() ==> out.spec_entry(i, j)
                == T::zero_spec(),
{
    let (rows, cols) = block.dims();
    Mat::zeros(rows, cols)
}

impl<'a, T: Numeric> Block<'a, T> {
    /// Evaluates the block expression: computes its shape, allocates one
    /// zero-filled buffer, and populates every cell from the leaves, in
    /// two passes and one allocation. A shape disagreement is reported
    /// before any allocation or copying happens; nothing is ever
    /// truncated, padded, or partially filled.
    pub fn evaluate(&self) -> (res: Result<Mat<T>, ShapeMismatch>)
        requires
            self.wf(),
            self.fits(),
            self.spec_shape() is Ok ==> self.spec_rows() * self.spec_cols() <= usize::MAX,
        ensures
            match self.spec_shape() {
                Ok(dims) => res matches Ok(m) && m.wf() && m.spec_rows() == self.spec_rows()
                    && m.spec_cols() == self.spec_cols() && forall|i: int, j: int|
                    0 <= i < self.spec_rows() && 0 <= j < self.spec_cols() ==> m.spec_entry(i, j)
                        == self.entry(i, j),
                Err(e) => res == Err::<Mat<T>, ShapeMismatch>(e),
            },
    {
        match self.shape() {
            Err(e) => Err(e),
            Ok(_) => {
                let mut out = allocate_block_output(self);
                proof {
                    self.counts_nonneg();
                }
                self.populate(&mut out, 0, 0);
                Ok(out)
            },
        }
    }
}

/// The left fold of one grid row into a chain of horizontal joins.
pub open spec fn hcat_fold<'a, T>(row: Seq<Block<'a, T>>) -> Block<'a, T>
    decreases row.len(),
{
    if row.len() <= 1 {
        row[0]
    } else {
        Block::HCat { left: Box::new(hcat_fold(row.drop_last())), right: Box::new(row.last()) }
    }
}

/// The left fold of the per-row composites into a chain of vertical joins.
pub open spec fn vcat_fold<'a, T>(col: Seq<Block<'a, T>>) -> Block<'a, T>
    decreases col.len(),
{
    if col.len() <= 1 {
        col[0]
    } else {
        Block::VCat { top: Box::new(vcat_fold(col.drop_last())), bottom: Box::new(col.last()) }
    }
}

/// The expression a grid of blocks denotes: each row folded left into one
/// horizontal chain, the rows folded left into one vertical chain.
pub open spec fn grid_tree<'a, T>(g: Seq<Seq<Block<'a, T>>>) -> Block<'a, T> {
    vcat_fold(g.map_values(|row: Seq<Block<'a, T>>| hcat_fold(row)))
}

/// The grid a vector of row vectors holds, as sequences.
pub open spec fn grid_view<'a, T>(g: Seq<Vec<Block<'a, T>>>) -> Seq<Seq<Block<'a, T>>> {
    g.map_values(|row: Vec<Block<'a, T>>| row@)
}

/// Folds one non-empty row of blocks, left to right, into a chain of
/// horizontal joins.
fn fold_row<'a, T>(row: Vec<Block<'a, T>>) -> (b: Block<'a, T>)
    requires
        row@.len() > 0,
    ensures
        b == hcat_fold(row@),
{
    let ghost rv = row@;
    let mut row = row;
    let mut acc = row.remove(0);
    proof {
        assert(rv.take(1) =~= seq![rv[0]]);
        assert(row@ =~= rv.skip(1));
    }
    let ghost k: int = 1;
    while row.len() > 0
        invariant
            1 <= k <= rv.len(),
            row@ =~= rv.skip(k),
            acc == hcat_fold(rv.take(k)),
        decreases row@.len(),
    {
        let nxt = row.remove(0);
        proof {
            assert(nxt == rv[k]);
            assert(row@ =~= rv.skip(k + 1));
        }
        acc = Block::HCat { left: Box::new(acc), right: Box::new(nxt) };
        proof {
            assert(rv.take(k + 1).drop_last() =~= rv.take(k));
            assert(rv.take(k + 1).last() == rv[k]);
            assert(acc == hcat_fold(rv.take(k + 1)));
        }
        proof {
            k = k + 1;
        }
    }
    proof {
        assert(rv.take(k) =~= rv);
    }
    acc
}

/// Folds the non-empty list of per-row composites, top to bottom, into a
/// chain of vertical joins.
fn fold_col<'a, T>(col: Vec<Block<'a, T>>) -> (b: Block<'a, T>)
    requires
        col@.len() > 0,
    ensures
        b == vcat_fold(col@),
{
    let ghost cv = col@;
    let mut col = col;
    let mut acc = col.remove(0);
    proof {
        assert(cv.take(1) =~= seq![cv[0]]);
        assert(col@ =~= cv.skip(1));
    }
    let ghost k: int = 1;
    while col.len() > 0
        invariant
            1 <= k <= cv.len(),
            col@ =~= cv.skip(k),
            acc == vcat_fold(cv.take(k)),
        decreases col@.len(),
    {
        let nxt = col.remove(0);
        proof {
            assert(nxt == cv[k]);
            assert(col@ =~= cv.skip(k + 1));
        }
        acc = Block::VCat { top: Box::new(acc), bottom: Box::new(nxt) };
        proof {
            assert(cv.take(k + 1).drop_last() =~= cv.take(k));
            assert(cv.take(k + 1).last() == cv[k]);
            assert(acc == vcat_fold(cv.take(k + 1)));
        }
        proof {
            k = k + 1;
        }
    }
    proof {
        assert(cv.take(k) =~= cv);
    }
    acc
}

/// The grid front end: takes a row-major grid of block expressions, folds
/// each row left into a horizontal chain and the rows left into a vertical
/// chain, and evaluates the resulting expression into one concrete matrix.
/// The grid is not pre-validated; rows of unequal total width surface as a
/// `ShapeMismatch` when the folded expression's shape is computed.
pub fn bcat<'a, T: Numeric>(grid: Vec<Vec<Block<'a, T>>>) -> (res: Result<Mat<T>, ShapeMismatch>)
    requires
        grid@.len() > 0,
        forall|k: int| 0 <= k < grid@.len() ==> #[trigger] grid@[k]@.len() > 0,
        grid_tree(grid_view(grid@)).wf(),
        grid_tree(grid_view(grid@)).fits(),
        grid_tree(grid_view(grid@)).spec_shape() is Ok ==> grid_tree(grid_view(grid@)).spec_rows()
            * grid_tree(grid_view(grid@)).spec_cols() <= usize::MAX,
    ensures
        match grid_tree(grid_view(grid@)).spec_shape() {
            Ok(dims) => res matches Ok(m) && m.wf() && m.spec_rows() == grid_tree(
                grid_view(grid@),
            ).spec_rows() && m.spec_cols() == grid_tree(grid_view(grid@)).spec_cols()
                && forall|i: int, j: int|
                0 <= i < grid_tree(grid_view(grid@)).spec_rows() && 0 <= j < grid_tree(
                    grid_view(grid@),
                ).spec_cols() ==> m.spec_entry(i, j) == grid_tree(grid_view(grid@)).entry(i, j),
            Err(e) => res == Err::<Mat<T>, ShapeMismatch>(e),
        },
{
    let ghost gv = grid_view(grid@);
    let mut grid = grid;
    let mut row_comps: Vec<Block<'a, T>> = Vec::new();
    while grid.len() > 0
        invariant
            row_comps@.len() + grid@.len() == gv.len(),
            forall|k: int| 0 <= k < grid@.len() ==> #[trigger] grid@[k]@.len() > 0,
            grid_view(grid@) =~= gv.skip(row_comps@.len() as int),
            forall|k: int|
                0 <= k < row_comps@.len() ==> #[trigger] row_comps@[k] == hcat_fold(gv[k]),
        decreases grid@.len(),
    {
        let ghost done: int = row_comps@.len() as int;
        let ghost gpre = grid@;
        let row = grid.remove(0);
        proof {
            assert(grid_view(gpre) =~= gv.skip(done));
            assert(row@ == grid_view(gpre)[0]);
            assert(row@ == gv[done]);
            assert forall|k: int| 0 <= k < grid@.len() implies grid@[k] == gpre[k + 1] by {}
            assert forall|k: int| 0 <= k < grid@.len() implies grid_view(grid@)[k] == gv.skip(
                done + 1,
            )[k] by {
                assert(grid_view(grid@)[k] == grid@[k]@);
                assert(grid_view(gpre)[k + 1] == gpre[k + 1]@);
                assert(gv.skip(done)[k + 1] == gv[done + 1 + k]);
                assert(gv.skip(done + 1)[k] == gv[done + 1 + k]);
            }
            assert(grid_view(grid@) =~= gv.skip(done + 1));
        }
        let comp = fold_row(row);
        row_comps.push(comp);
    }
    proof {
        assert(row_comps@.len() == gv.len());
        assert(row_comps@ =~= gv.map_values(|row: Seq<Block<'a, T>>| hcat_fold(row)));
    }
    let tree = fold_col(row_comps);
    proof {
        assert(tree == grid_tree(gv));
    }
    tree.evaluate()
}

} // verus!
