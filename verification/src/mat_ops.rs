//! Whole-matrix operations built on the composition engine.

use vstd::prelude::*;

use crate::concat::Block;
use crate::interfaces::Numeric;
use crate::laws::hcat_preserves_blocks;
use crate::mat::Mat;
use vstd::pervasive::unreached;

verus! {

/// Joins two matrices with equal row counts side by side into one matrix:
/// the left block's columns first, then the right block's.
pub fn concat_horiz<T: Numeric>(a: Mat<T>, b: Mat<T>) -> (r: Mat<T>)
    requires
        a.wf(),
        b.wf(),
        a.spec_rows() == b.spec_rows(),
        a.spec_cols() + b.spec_cols() <= usize::MAX,
        a.spec_rows() * (a.spec_cols() + b.spec_cols()) <= usize::MAX,
    ensures
        r.wf(),
        r.spec_rows() == a.spec_rows(),
        r.spec_cols() == a.spec_cols() + b.spec_cols(),
        forall|i: int, j: int|
            0 <= i < a.spec_rows() && 0 <= j < a.spec_cols() ==> r.spec_entry(i, j)
                == a.spec_entry(i, j),
        forall|i: int, j: int|
            0 <= i < b.spec_rows() && 0 <= j < b.spec_cols() ==> r.spec_entry(
                i,
                a.spec_cols() + j,
            ) == b.spec_entry(i, j),
{
    let ba = Block::leaf(&a);
    let bb = Block::leaf(&b);
    let ghost h = Block::HCat { left: Box::new(ba), right: Box::new(bb) };
    proof {
        hcat_preserves_blocks(ba, bb);
        assert(h.wf());
        assert(h.fits());
    }
    let joined = Block::hcat(ba, bb);
    let res = joined.evaluate();
    match res {
        Ok(m) => {
            proof {
                assert forall|i: int, j: int|
                    0 <= i < b.spec_rows() && 0 <= j < b.spec_cols() implies m.spec_entry(
                    i,
                    a.spec_cols() + j,
                ) == b.spec_entry(i, j) by {
                    assert(m.spec_entry(i, a.spec_cols() + j) == h.entry(i, a.spec_cols() + j));
                    assert(h.entry(i, a.spec_cols() + j) == bb.entry(i, j));
                    assert(bb.entry(i, j) == b.spec_entry(i, j));
                }
            }
            m
        },
        Err(_) => unreached(),
    }
}

} // verus!
