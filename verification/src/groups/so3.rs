//! Rotation generators: the skew-symmetric hat map and the conversions
//! into and out of its 3 by 3 matrix form.

use vstd::prelude::*;

use crate::concat::{Block, bcat, grid_tree, grid_view, hcat_fold, vcat_fold};
use crate::fixed::{Matrix3, Vector3};
use crate::groups::se3::{Se3Matrix, se3_from_rp_entry};
use crate::groups::shared_traits::ToVec;
use crate::interfaces::Numeric;
use crate::laws::{hcat_preserves_blocks, vcat_preserves_blocks};
use crate::mat::Mat;
use vstd::pervasive::unreached;

verus! {

/// A 3 by 3 matrix standing in the rotation generator algebra: the image
/// of a three-vector under the hat map, or a rotation read out of a rigid
/// transform.
pub struct So3Matrix<T: Numeric>(pub Matrix3<T>);

impl<T: Numeric> So3Matrix<T> {
    pub open spec fn wf(self) -> bool {
        self.0.wf()
    }
}

/// The skew-symmetric hat map of a three-vector, one cell at a time:
/// zero on the diagonal, the components and their negations elsewhere.
pub open spec fn hat3_entry<T: Numeric>(v: Seq<T>, i: int, j: int) -> T {
    if i == 0 && j == 1 {
        v[2].neg_spec()
    } else if i == 0 && j == 2 {
        v[1]
    } else if i == 1 && j == 0 {
        v[2]
    } else if i == 1 && j == 2 {
        v[0].neg_spec()
    } else if i == 2 && j == 0 {
        v[1].neg_spec()
    } else if i == 2 && j == 1 {
        v[0]
    } else {
        T::zero_spec()
    }
}

/// Conversion into the 3 by 3 rotation generator form.
pub trait ToSo3<T: Numeric> {
    /// When the conversion is defined.
    spec fn to_so3_req(&self) -> bool;

    /// The cell at row `i`, column `j` of the resulting matrix.
    spec fn to_so3_entry(&self, i: int, j: int) -> T;

    fn to_so3(&self) -> (r: So3Matrix<T>)
        requires
            self.to_so3_req(),
        ensures
            r.wf(),
            forall|i: int, j: int|
                0 <= i < 3 && 0 <= j < 3 ==> r.0.0.spec_entry(i, j) == self.to_so3_entry(i, j),
    ;
}

/// Extension of a rotation generator to a rigid-transform generator,
/// given a translation vector.
pub trait So3ToSe3<T: Numeric> {
    /// When the extension is defined.
    spec fn to_se3_with_req(&self, p_vec: Vector3<T>) -> bool;

    /// The cell at row `i`, column `j` of the resulting 4 by 4 matrix.
    spec fn to_se3_with_entry(&self, p_vec: Vector3<T>, i: int, j: int) -> T;

    fn to_se3(&self, p_vec: Vector3<T>) -> (r: Se3Matrix<T>)
        requires
            self.to_se3_with_req(p_vec),
        ensures
            r.wf(),
            forall|i: int, j: int|
                0 <= i < 4 && 0 <= j < 4 ==> r.0.0.spec_entry(i, j) == self.to_se3_with_entry(
                    p_vec,
                    i,
                    j,
                ),
    ;
}

impl<T: Numeric> ToSo3<T> for Matrix3<T> {
    open spec fn to_so3_req(&self) -> bool {
        self.wf()
    }

    open spec fn to_so3_entry(&self, i: int, j: int) -> T {
        self.0.spec_entry(i, j)
    }

    fn to_so3(&self) -> (r: So3Matrix<T>) {
        So3Matrix(Matrix3(self.0.duplicate()))
    }
}

impl<T: Numeric> ToSo3<T> for Vector3<T> {
    open spec fn to_so3_req(&self) -> bool {
        self.wf() && self.0@[0].negatable() && self.0@[1].negatable() && self.0@[2].negatable()
    }

    open spec fn to_so3_entry(&self, i: int, j: int) -> T {
        hat3_entry(self.0@, i, j)
    }

    fn to_so3(&self) -> (r: So3Matrix<T>) {
        let a = self.get(0);
        let b = self.get(1);
        let c = self.get(2);
        So3Matrix(
            Matrix3::new(
                T::zero(),
                c.neg(),
                b,
                c,
                T::zero(),
                a.neg(),
                b.neg(),
                a,
                T::zero(),
            ),
        )
    }
}

impl<T: Numeric> ToSo3<T> for [T; 3] {
    open spec fn to_so3_req(&self) -> bool {
        self@[0].negatable() && self@[1].negatable() && self@[2].negatable()
    }

    open spec fn to_so3_entry(&self, i: int, j: int) -> T {
        hat3_entry(self@, i, j)
    }

    fn to_so3(&self) -> (r: So3Matrix<T>) {
        let a = self[0];
        let b = self[1];
        let c = self[2];
        So3Matrix(
            Matrix3::new(
                T::zero(),
                c.neg(),
                b,
                c,
                T::zero(),
                a.neg(),
                b.neg(),
                a,
                T::zero(),
            ),
        )
    }
}

impl<T: Numeric> ToVec<T> for So3Matrix<T> {
    type VecSize = Vector3<T>;

    open spec fn to_vec_req(&self) -> bool {
        self.wf()
    }

    open spec fn to_vec_seq(&self) -> Seq<T> {
        seq![self.0.0.spec_entry(2, 1), self.0.0.spec_entry(0, 2), self.0.0.spec_entry(1, 0)]
    }

    fn to_vec(&self) -> (r: Vector3<T>) {
        Vector3::new(self.0.0.get(2, 1), self.0.0.get(0, 2), self.0.0.get(1, 0))
    }
}

impl<T: Numeric> So3ToSe3<T> for So3Matrix<T> {
    open spec fn to_se3_with_req(&self, p_vec: Vector3<T>) -> bool {
        self.wf() && p_vec.wf()
    }

    open spec fn to_se3_with_entry(&self, p_vec: Vector3<T>, i: int, j: int) -> T {
        se3_from_rp_entry(self.0.0@, p_vec.0@, i, j)
    }

    fn to_se3(&self, p_vec: Vector3<T>) -> (r: Se3Matrix<T>) {
        let bottom: Mat<T> = Mat::from_flat(
            1,
            4,
            vec![T::zero(), T::zero(), T::zero(), T::one()],
        );
        let ba = Block::leaf(&self.0.0);
        let bb = Block::leaf(&p_vec.0);
        let bc = Block::leaf(&bottom);
        let grid = vec![vec![ba, bb], vec![bc]];
        let ghost gv = grid_view(grid@);
        proof {
            assert(grid@.len() == 2);
            assert(grid@[0]@ == seq![ba, bb]);
            assert(grid@[1]@ == seq![bc]);
            assert(gv =~= seq![seq![ba, bb], seq![bc]]);
            let rows = gv.map_values(|row: Seq<Block<T>>| hcat_fold(row));
            assert(rows[0] == hcat_fold(seq![ba, bb]));
            assert(rows[1] == hcat_fold(seq![bc]));
            assert(seq![ba, bb].drop_last() =~= seq![ba]);
            assert(hcat_fold(seq![ba]) == ba);
            let h = Block::HCat { left: Box::new(ba), right: Box::new(bb) };
            assert(hcat_fold(seq![ba, bb]) == h);
            assert(hcat_fold(seq![bc]) == bc);
            let t = Block::VCat { top: Box::new(h), bottom: Box::new(bc) };
            assert(rows.drop_last() =~= seq![h]);
            assert(vcat_fold(seq![h]) == h);
            assert(vcat_fold(rows) == t);
            assert(grid_tree(gv) == t);
            hcat_preserves_blocks(ba, bb);
            assert(h.wf());
            assert(h.fits());
            h.shape_values();
            vcat_preserves_blocks(h, bc);
            assert(t.wf());
            assert(t.fits());
        }
        let res = bcat(grid);
        match res {
            Ok(m) => {
                proof {
                    let h = Block::HCat { left: Box::new(ba), right: Box::new(bb) };
                    let t = Block::VCat { top: Box::new(h), bottom: Box::new(bc) };
                    assert forall|i: int, j: int|
                        0 <= i < 4 && 0 <= j < 4 implies m.spec_entry(i, j) == se3_from_rp_entry(
                        self.0.0@,
                        p_vec.0@,
                        i,
                        j,
                    ) by {
                        assert(m.spec_entry(i, j) == t.entry(i, j));
                        if i < 3 && j < 3 {
                            assert(t.entry(i, j) == h.entry(i, j));
                            assert(h.entry(i, j) == ba.entry(i, j));
                            assert(ba.entry(i, j) == self.0.0.spec_entry(i, j));
                            self.0.0.entry_eq(i, j);
                        } else if i < 3 && j == 3 {
                            assert(t.entry(i, j) == h.entry(i, j));
                            assert(h.entry(i, ba.spec_cols() + 0) == bb.entry(i, 0));
                            assert(j == ba.spec_cols() + 0);
                            assert(bb.entry(i, 0) == p_vec.0.spec_entry(i, 0));
                            p_vec.0.entry_eq(i, 0);
                        } else {
                            assert(t.entry(h.spec_rows() + 0, j) == bc.entry(0, j));
                            assert(i == h.spec_rows() + 0);
                            assert(bc.entry(0, j) == bottom.spec_entry(0, j));
                            bottom.entry_eq(0, j);
                        }
                    }
                }
                Se3Matrix(crate::fixed::Matrix4(m))
            },
            Err(_) => unreached(),
        }
    }
}

} // verus!
