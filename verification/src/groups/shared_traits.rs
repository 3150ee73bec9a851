//! The conversion every group type shares: reading a matrix form back
//! into its vector of coordinates.

use vstd::prelude::*;

use crate::fixed::ColumnVector;

verus! {

/// Conversion from a matrix form to the column vector of its coordinates.
pub trait ToVec<T> {
    /// The column-vector shape the coordinates come back in.
    type VecSize: ColumnVector<T>;

    /// When the conversion is defined.
    spec fn to_vec_req(&self) -> bool;

    /// The coordinates, top to bottom.
    spec fn to_vec_seq(&self) -> Seq<T>;

    fn to_vec(&self) -> (r: Self::VecSize)
        requires
            self.to_vec_req(),
        ensures
            r.col_wf(),
            r.col_entries() == self.to_vec_seq(),
    ;
}

} // verus!
