//! The engine's algebraic laws: what joining, stacking, and grid
//! composition preserve, stated over the block model and proved once for
//! all blocks.

use vstd::prelude::*;

use crate::concat::{Block, grid_tree};

verus! {

/// Joining A (r by c) and B (r by c2) side by side has shape (r, c + c2);
/// columns [0, c) of the result equal A and columns [c, c + c2) equal B.
pub proof fn hcat_preserves_blocks<'a, T>(a: Block<'a, T>, b: Block<'a, T>)
    requires
        a.wf(),
        b.wf(),
        a.fits(),
        b.fits(),
        a.spec_shape() is Ok,
        b.spec_shape() is Ok,
        a.spec_rows() == b.spec_rows(),
        a.spec_cols() + b.spec_cols() <= usize::MAX,
    ensures
        ({
            let h = Block::HCat { left: Box::new(a), right: Box::new(b) };
            &&& h.spec_shape() is Ok
            &&& h.spec_rows() == a.spec_rows()
            &&& h.spec_cols() == a.spec_cols() + b.spec_cols()
            &&& forall|i: int, j: int|
                0 <= i < a.spec_rows() && 0 <= j < a.spec_cols() ==> h.entry(i, j) == a.entry(i, j)
            &&& forall|i: int, j: int|
                0 <= i < b.spec_rows() && 0 <= j < b.spec_cols() ==> h.entry(i, a.spec_cols() + j)
                    == b.entry(i, j)
        }),
{
    a.shape_values();
    b.shape_values();
    a.counts_nonneg();
    b.counts_nonneg();
    let h = Block::HCat { left: Box::new(a), right: Box::new(b) };
    assert forall|i: int, j: int|
        0 <= i < b.spec_rows() && 0 <= j < b.spec_cols() implies h.entry(i, a.spec_cols() + j)
        == b.entry(i, j) by {
        assert((a.spec_cols() + j) - a.spec_cols() == j);
    }
}

/// Stacking A (r by c) on B (r2 by c) has shape (r + r2, c); rows [0, r)
/// of the result equal A and rows [r, r + r2) equal B.
pub proof fn vcat_preserves_blocks<'a, T>(a: Block<'a, T>, b: Block<'a, T>)
    requires
        a.wf(),
        b.wf(),
        a.fits(),
        b.fits(),
        a.spec_shape() is Ok,
        b.spec_shape() is Ok,
        a.spec_cols() == b.spec_cols(),
        a.spec_rows() + b.spec_rows() <= usize::MAX,
    ensures
        ({
            let v = Block::VCat { top: Box::new(a), bottom: Box::new(b) };
            &&& v.spec_shape() is Ok
            &&& v.spec_rows() == a.spec_rows() + b.spec_rows()
            &&& v.spec_cols() == a.spec_cols()
            &&& forall|i: int, j: int|
                0 <= i < a.spec_rows() && 0 <= j < a.spec_cols() ==> v.entry(i, j) == a.entry(i, j)
            &&& forall|i: int, j: int|
                0 <= i < b.spec_rows() && 0 <= j < b.spec_cols() ==> v.entry(a.spec_rows() + i, j)
                    == b.entry(i, j)
        }),
{
    a.shape_values();
    b.shape_values();
    a.counts_nonneg();
    b.counts_nonneg();
    let v = Block::VCat { top: Box::new(a), bottom: Box::new(b) };
    assert forall|i: int, j: int|
        0 <= i < b.spec_rows() && 0 <= j < b.spec_cols() implies v.entry(a.spec_rows() + i, j)
        == b.entry(i, j) by {
        assert((a.spec_rows() + i) - a.spec_rows() == i);
    }
}

/// Horizontal joining is associative in shape: grouping three row-agreeing
/// blocks to the left or to the right computes the same shape, tags
/// included.
pub proof fn hcat_shape_associative<'a, T>(a: Block<'a, T>, b: Block<'a, T>, c: Block<'a, T>)
    requires
        a.wf(),
        b.wf(),
        c.wf(),
        a.fits(),
        b.fits(),
        c.fits(),
        a.spec_shape() is Ok,
        b.spec_shape() is Ok,
        c.spec_shape() is Ok,
        a.spec_rows() == b.spec_rows(),
        b.spec_rows() == c.spec_rows(),
        a.spec_cols() + b.spec_cols() + c.spec_cols() <= usize::MAX,
    ensures
        ({
            let lg = Block::HCat {
                left: Box::new(Block::HCat { left: Box::new(a), right: Box::new(b) }),
                right: Box::new(c),
            };
            let rg = Block::HCat {
                left: Box::new(a),
                right: Box::new(Block::HCat { left: Box::new(b), right: Box::new(c) }),
            };
            lg.spec_shape() == rg.spec_shape()
        }),
{
    reveal_with_fuel(Block::spec_shape, 3);
    a.shape_values();
    b.shape_values();
    c.shape_values();
    a.counts_nonneg();
    b.counts_nonneg();
    c.counts_nonneg();
}

/// Vertical stacking is associative in shape: grouping three
/// column-agreeing blocks to the top or to the bottom computes the same
/// shape, tags included.
pub proof fn vcat_shape_associative<'a, T>(a: Block<'a, T>, b: Block<'a, T>, c: Block<'a, T>)
    requires
        a.wf(),
        b.wf(),
        c.wf(),
        a.fits(),
        b.fits(),
        c.fits(),
        a.spec_shape() is Ok,
        b.spec_shape() is Ok,
        c.spec_shape() is Ok,
        a.spec_cols() == b.spec_cols(),
        b.spec_cols() == c.spec_cols(),
        a.spec_rows() + b.spec_rows() + c.spec_rows() <= usize::MAX,
    ensures
        ({
            let lg = Block::VCat {
                top: Box::new(Block::VCat { top: Box::new(a), bottom: Box::new(b) }),
                bottom: Box::new(c),
            };
            let rg = Block::VCat {
                top: Box::new(a),
                bottom: Box::new(Block::VCat { top: Box::new(b), bottom: Box::new(c) }),
            };
            lg.spec_shape() == rg.spec_shape()
        }),
{
    reveal_with_fuel(Block::spec_shape, 3);
    a.shape_values();
    b.shape_values();
    c.shape_values();
    a.counts_nonneg();
    b.counts_nonneg();
    c.counts_nonneg();
}

/// Horizontal joining is associative in content as well: grouping three
/// row-agreeing blocks to the left or to the right places every cell the
/// same way.
pub proof fn hcat_content_associative<'a, T>(a: Block<'a, T>, b: Block<'a, T>, c: Block<'a, T>)
    requires
        a.wf(),
        b.wf(),
        c.wf(),
        a.spec_rows() == b.spec_rows(),
        b.spec_rows() == c.spec_rows(),
    ensures
        ({
            let lg = Block::HCat {
                left: Box::new(Block::HCat { left: Box::new(a), right: Box::new(b) }),
                right: Box::new(c),
            };
            let rg = Block::HCat {
                left: Box::new(a),
                right: Box::new(Block::HCat { left: Box::new(b), right: Box::new(c) }),
            };
            forall|i: int, j: int|
                0 <= i < a.spec_rows() && 0 <= j < a.spec_cols() + b.spec_cols() + c.spec_cols()
                    ==> lg.entry(i, j) == rg.entry(i, j)
        }),
{
    a.counts_nonneg();
    b.counts_nonneg();
    c.counts_nonneg();
    let ca = a.spec_cols();
    let cb = b.spec_cols();
    let ab = Block::HCat { left: Box::new(a), right: Box::new(b) };
    let bc = Block::HCat { left: Box::new(b), right: Box::new(c) };
    let lg = Block::HCat { left: Box::new(ab), right: Box::new(c) };
    let rg = Block::HCat { left: Box::new(a), right: Box::new(bc) };
    assert forall|i: int, j: int|
        0 <= i < a.spec_rows() && 0 <= j < a.spec_cols() + b.spec_cols()
            + c.spec_cols() implies lg.entry(i, j) == rg.entry(i, j) by {
        if j < ca {
            assert(lg.entry(i, j) == ab.entry(i, j));
            assert(ab.entry(i, j) == a.entry(i, j));
            assert(rg.entry(i, j) == a.entry(i, j));
        } else if j < ca + cb {
            assert(lg.entry(i, j) == ab.entry(i, j));
            assert(ab.entry(i, j) == b.entry(i, j - ca));
            assert(rg.entry(i, j) == bc.entry(i, j - ca));
            assert(bc.entry(i, j - ca) == b.entry(i, j - ca));
        } else {
            assert(lg.entry(i, j) == c.entry(i, j - (ca + cb)));
            assert(rg.entry(i, j) == bc.entry(i, j - ca));
            assert(bc.entry(i, j - ca) == c.entry(i, (j - ca) - cb));
            assert(j - (ca + cb) == (j - ca) - cb);
        }
    }
}

/// Vertical stacking is associative in content as well: grouping three
/// column-agreeing blocks to the top or to the bottom places every cell
/// the same way.
pub proof fn vcat_content_associative<'a, T>(a: Block<'a, T>, b: Block<'a, T>, c: Block<'a, T>)
    requires
        a.wf(),
        b.wf(),
        c.wf(),
        a.spec_cols() == b.spec_cols(),
        b.spec_cols() == c.spec_cols(),
    ensures
        ({
            let lg = Block::VCat {
                top: Box::new(Block::VCat { top: Box::new(a), bottom: Box::new(b) }),
                bottom: Box::new(c),
            };
            let rg = Block::VCat {
                top: Box::new(a),
                bottom: Box::new(Block::VCat { top: Box::new(b), bottom: Box::new(c) }),
            };
            forall|i: int, j: int|
                0 <= i < a.spec_rows() + b.spec_rows() + c.spec_rows() && 0 <= j < a.spec_cols()
                    ==> lg.entry(i, j) == rg.entry(i, j)
        }),
{
    a.counts_nonneg();
    b.counts_nonneg();
    c.counts_nonneg();
    let ra = a.spec_rows();
    let rb = b.spec_rows();
    let ab = Block::VCat { top: Box::new(a), bottom: Box::new(b) };
    let bc = Block::VCat { top: Box::new(b), bottom: Box::new(c) };
    let lg = Block::VCat { top: Box::new(ab), bottom: Box::new(c) };
    let rg = Block::VCat { top: Box::new(a), bottom: Box::new(bc) };
    assert forall|i: int, j: int|
        0 <= i < a.spec_rows() + b.spec_rows() + c.spec_rows() && 0 <= j
            < a.spec_cols() implies lg.entry(i, j) == rg.entry(i, j) by {
        if i < ra {
            assert(lg.entry(i, j) == ab.entry(i, j));
            assert(ab.entry(i, j) == a.entry(i, j));
            assert(rg.entry(i, j) == a.entry(i, j));
        } else if i < ra + rb {
            assert(lg.entry(i, j) == ab.entry(i, j));
            assert(ab.entry(i, j) == b.entry(i - ra, j));
            assert(rg.entry(i, j) == bc.entry(i - ra, j));
            assert(bc.entry(i - ra, j) == b.entry(i - ra, j));
        } else {
            assert(lg.entry(i, j) == c.entry(i - (ra + rb), j));
            assert(rg.entry(i, j) == bc.entry(i - ra, j));
            assert(bc.entry(i - ra, j) == c.entry((i - ra) - rb, j));
            assert(i - (ra + rb) == (i - ra) - rb);
        }
    }
}

/// A block with no columns joined before any row-agreeing block B leaves
/// B unchanged: same row and column counts, same cells.
pub proof fn hcat_zero_cols_identity<'a, T>(z: Block<'a, T>, b: Block<'a, T>)
    requires
        z.wf(),
        b.wf(),
        z.fits(),
        b.fits(),
        z.spec_shape() is Ok,
        b.spec_shape() is Ok,
        z.spec_cols() == 0,
        z.spec_rows() == b.spec_rows(),
    ensures
        ({
            let h = Block::HCat { left: Box::new(z), right: Box::new(b) };
            &&& h.spec_shape() is Ok
            &&& h.spec_rows() == b.spec_rows()
            &&& h.spec_cols() == b.spec_cols()
            &&& forall|i: int, j: int|
                0 <= i < b.spec_rows() && 0 <= j < b.spec_cols() ==> h.entry(i, j) == b.entry(i, j)
        }),
{
    z.shape_values();
    b.shape_values();
    z.counts_nonneg();
    b.counts_nonneg();
}

/// A block with no rows stacked above any column-agreeing block B leaves
/// B unchanged: same row and column counts, same cells.
pub proof fn vcat_zero_rows_identity<'a, T>(z: Block<'a, T>, b: Block<'a, T>)
    requires
        z.wf(),
        b.wf(),
        z.fits(),
        b.fits(),
        z.spec_shape() is Ok,
        b.spec_shape() is Ok,
        z.spec_rows() == 0,
        z.spec_cols() == b.spec_cols(),
    ensures
        ({
            let v = Block::VCat { top: Box::new(z), bottom: Box::new(b) };
            &&& v.spec_shape() is Ok
            &&& v.spec_rows() == b.spec_rows()
            &&& v.spec_cols() == b.spec_cols()
            &&& forall|i: int, j: int|
                0 <= i < b.spec_rows() && 0 <= j < b.spec_cols() ==> v.entry(i, j) == b.entry(i, j)
        }),
{
    z.shape_values();
    b.shape_values();
    z.counts_nonneg();
    b.counts_nonneg();
}

/// A two-by-two grid of blocks that are all n by n composes into one
/// 2n by 2n block whose four n by n quadrants are the four blocks, in
/// row-major order.
pub proof fn grid_two_by_two_quadrants<'a, T>(
    a: Block<'a, T>,
    b: Block<'a, T>,
    c: Block<'a, T>,
    d: Block<'a, T>,
    n: int,
)
    requires
        a.wf(),
        b.wf(),
        c.wf(),
        d.wf(),
        a.fits(),
        b.fits(),
        c.fits(),
        d.fits(),
        a.spec_shape() is Ok,
        b.spec_shape() is Ok,
        c.spec_shape() is Ok,
        d.spec_shape() is Ok,
        a.spec_rows() == n && a.spec_cols() == n,
        b.spec_rows() == n && b.spec_cols() == n,
        c.spec_rows() == n && c.spec_cols() == n,
        d.spec_rows() == n && d.spec_cols() == n,
        2 * n <= usize::MAX,
    ensures
        ({
            let t = grid_tree(seq![seq![a, b], seq![c, d]]);
            &&& t == (Block::VCat {
                top: Box::new(Block::HCat { left: Box::new(a), right: Box::new(b) }),
                bottom: Box::new(Block::HCat { left: Box::new(c), right: Box::new(d) }),
            })
            &&& t.wf()
            &&& t.fits()
            &&& t.spec_shape() is Ok
            &&& t.spec_rows() == 2 * n
            &&& t.spec_cols() == 2 * n
            &&& forall|i: int, j: int|
                0 <= i < n && 0 <= j < n ==> t.entry(i, j) == a.entry(i, j)
            &&& forall|i: int, j: int|
                0 <= i < n && 0 <= j < n ==> t.entry(i, n + j) == b.entry(i, j)
            &&& forall|i: int, j: int|
                0 <= i < n && 0 <= j < n ==> t.entry(n + i, j) == c.entry(i, j)
            &&& forall|i: int, j: int|
                0 <= i < n && 0 <= j < n ==> t.entry(n + i, n + j) == d.entry(i, j)
        }),
{
    let g = seq![seq![a, b], seq![c, d]];
    let rows = g.map_values(|row: Seq<Block<'a, T>>| crate::concat::hcat_fold(row));
    assert(rows.len() == 2);
    assert(rows[0] == crate::concat::hcat_fold(seq![a, b]));
    assert(rows[1] == crate::concat::hcat_fold(seq![c, d]));
    assert(seq![a, b].drop_last() =~= seq![a]);
    assert(seq![c, d].drop_last() =~= seq![c]);
    assert(seq![a, b].last() == b);
    assert(seq![c, d].last() == d);
    assert(crate::concat::hcat_fold(seq![a]) == a);
    assert(crate::concat::hcat_fold(seq![c]) == c);
    let top = Block::HCat { left: Box::new(a), right: Box::new(b) };
    let bottom = Block::HCat { left: Box::new(c), right: Box::new(d) };
    assert(crate::concat::hcat_fold(seq![a, b]) == top);
    assert(crate::concat::hcat_fold(seq![c, d]) == bottom);
    assert(rows.drop_last() =~= seq![top]);
    assert(rows.last() == bottom);
    let t = Block::VCat { top: Box::new(top), bottom: Box::new(bottom) };
    assert(crate::concat::vcat_fold(seq![top]) == top);
    assert(crate::concat::vcat_fold(rows) == t);
    assert(grid_tree(g) == t);
    hcat_preserves_blocks(a, b);
    hcat_preserves_blocks(c, d);
    top.shape_values();
    bottom.shape_values();
    vcat_preserves_blocks(top, bottom);
    assert forall|i: int, j: int| 0 <= i < n && 0 <= j < n implies t.entry(n + i, j) == c.entry(
        i,
        j,
    ) by {
        assert(t.entry(n + i, j) == bottom.entry(i, j));
    }
    assert forall|i: int, j: int| 0 <= i < n && 0 <= j < n implies t.entry(n + i, n + j)
        == d.entry(i, j) by {
        assert(t.entry(n + i, n + j) == bottom.entry(i, n + j));
        assert(bottom.entry(i, n + j) == d.entry(i, j));
    }
    assert(top.wf());
    assert(bottom.wf());
    assert(t.wf());
    assert(top.fits());
    assert(bottom.fits());
    assert(t.fits());
}

} // verus!
