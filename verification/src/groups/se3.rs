//! Rigid-transform generators: the 4 by 4 matrix form of a six-vector
//! and the conversions into and out of it.

use vstd::prelude::*;

use crate::fixed::{Matrix4, Vector3, Vector6};
use crate::groups::shared_traits::ToVec;
use crate::groups::so3::{So3Matrix, ToSo3};
use crate::groups::twist::{Twist, ToTwist};
use crate::interfaces::Numeric;

verus! {

/// A 4 by 4 matrix standing in the rigid-transform generator algebra: a
/// rotation part, a translation column, and the homogeneous bottom row.
pub struct Se3Matrix<T: Numeric>(pub Matrix4<T>);

impl<T: Numeric> Se3Matrix<T> {
    pub open spec fn wf(self) -> bool {
        self.0.wf()
    }
}

/// The 4 by 4 generator a six-vector maps to: the hat map of the first
/// three components, the last three as the translation column, and a
/// homogeneous bottom row.
pub open spec fn se3_hat_entry<T: Numeric>(x: Seq<T>, i: int, j: int) -> T {
    if i == 0 && j == 1 {
        x[2].neg_spec()
    } else if i == 0 && j == 2 {
        x[1]
    } else if i == 1 && j == 0 {
        x[2]
    } else if i == 1 && j == 2 {
        x[0].neg_spec()
    } else if i == 2 && j == 0 {
        x[1].neg_spec()
    } else if i == 2 && j == 1 {
        x[0]
    } else if i == 0 && j == 3 {
        x[3]
    } else if i == 1 && j == 3 {
        x[4]
    } else if i == 2 && j == 3 {
        x[5]
    } else if i == 3 && j == 3 {
        T::one_spec()
    } else {
        T::zero_spec()
    }
}

/// The 4 by 4 transform assembled from a 3 by 3 rotation part and a
/// translation column, with the homogeneous bottom row.
pub open spec fn se3_from_rp_entry<T: Numeric>(rm: Seq<T>, p: Seq<T>, i: int, j: int) -> T {
    if i < 3 && j < 3 {
        rm[i * 3 + j]
    } else if i < 3 && j == 3 {
        p[i]
    } else if i == 3 && j == 3 {
        T::one_spec()
    } else {
        T::zero_spec()
    }
}

/// Conversion into the 4 by 4 rigid-transform generator form.
pub trait ToSe3<T: Numeric> {
    /// When the conversion is defined.
    spec fn to_se3_req(&self) -> bool;

    /// The cell at row `i`, column `j` of the resulting matrix.
    spec fn to_se3_entry(&self, i: int, j: int) -> T;

    fn to_se3(&self) -> (r: Se3Matrix<T>)
        requires
            self.to_se3_req(),
        ensures
            r.wf(),
            forall|i: int, j: int|
                0 <= i < 4 && 0 <= j < 4 ==> r.0.0.spec_entry(i, j) == self.to_se3_entry(i, j),
    ;
}

/// Splitting a rigid transform into its rotation part and its
/// translation column.
pub trait ToRP<T: Numeric> {
    /// When the split is defined.
    spec fn to_rp_req(&self) -> bool;

    /// The cell at row `i`, column `j` of the rotation part.
    spec fn to_rp_r_entry(&self, i: int, j: int) -> T;

    /// The component at position `i` of the translation column.
    spec fn to_rp_p_entry(&self, i: int) -> T;

    fn to_rp(&self) -> (rp: (So3Matrix<T>, Vector3<T>))
        requires
            self.to_rp_req(),
        ensures
            rp.0.wf(),
            rp.1.wf(),
            forall|i: int, j: int|
                0 <= i < 3 && 0 <= j < 3 ==> rp.0.0.0.spec_entry(i, j) == self.to_rp_r_entry(i, j),
            forall|i: int| 0 <= i < 3 ==> rp.1.0@[i] == self.to_rp_p_entry(i),
    ;
}

impl<T: Numeric> ToSe3<T> for Matrix4<T> {
    open spec fn to_se3_req(&self) -> bool {
        self.wf()
    }

    open spec fn to_se3_entry(&self, i: int, j: int) -> T {
        self.0.spec_entry(i, j)
    }

    fn to_se3(&self) -> (r: Se3Matrix<T>) {
        Se3Matrix(Matrix4(self.0.duplicate()))
    }
}

impl<T: Numeric> ToSe3<T> for Vector6<T> {
    open spec fn to_se3_req(&self) -> bool {
        self.wf() && self.0@[0].negatable() && self.0@[1].negatable() && self.0@[2].negatable()
    }

    open spec fn to_se3_entry(&self, i: int, j: int) -> T {
        se3_hat_entry(self.0@, i, j)
    }

    fn to_se3(&self) -> (r: Se3Matrix<T>) {
        Se3Matrix(
            Matrix4::new(
                T::zero(),
                self.get(2).neg(),
                self.get(1),
                self.get(3),
                self.get(2),
                T::zero(),
                self.get(0).neg(),
                self.get(4),
                self.get(1).neg(),
                self.get(0),
                T::zero(),
                self.get(5),
                T::zero(),
                T::zero(),
                T::zero(),
                T::one(),
            ),
        )
    }
}

impl<T: Numeric> ToSe3<T> for [T; 6] {
    open spec fn to_se3_req(&self) -> bool {
        self@[0].negatable() && self@[1].negatable() && self@[2].negatable()
    }

    open spec fn to_se3_entry(&self, i: int, j: int) -> T {
        se3_hat_entry(self@, i, j)
    }

    fn to_se3(&self) -> (r: Se3Matrix<T>) {
        Se3Matrix(
            Matrix4::new(
                T::zero(),
                self[2].neg(),
                self[1],
                self[3],
                self[2],
                T::zero(),
                self[0].neg(),
                self[4],
                self[1].neg(),
                self[0],
                T::zero(),
                self[5],
                T::zero(),
                T::zero(),
                T::zero(),
                T::one(),
            ),
        )
    }
}

impl<T: Numeric> ToRP<T> for Se3Matrix<T> {
    open spec fn to_rp_req(&self) -> bool {
        self.wf()
    }

    open spec fn to_rp_r_entry(&self, i: int, j: int) -> T {
        self.0.0.spec_entry(i, j)
    }

    open spec fn to_rp_p_entry(&self, i: int) -> T {
        self.0.0.spec_entry(i, 3)
    }

    fn to_rp(&self) -> (rp: (So3Matrix<T>, Vector3<T>)) {
        let m = &self.0.0;
        let r = crate::fixed::Matrix3::new(
            m.get(0, 0),
            m.get(0, 1),
            m.get(0, 2),
            m.get(1, 0),
            m.get(1, 1),
            m.get(1, 2),
            m.get(2, 0),
            m.get(2, 1),
            m.get(2, 2),
        );
        let p = Vector3::new(m.get(0, 3), m.get(1, 3), m.get(2, 3));
        (So3Matrix(r), p)
    }
}

impl<T: Numeric> ToSo3<T> for Se3Matrix<T> {
    open spec fn to_so3_req(&self) -> bool {
        self.wf()
    }

    open spec fn to_so3_entry(&self, i: int, j: int) -> T {
        self.0.0.spec_entry(i, j)
    }

    fn to_so3(&self) -> (r: So3Matrix<T>) {
        let rp = self.to_rp();
        proof {
            assert forall|i: int, j: int| 0 <= i < 3 && 0 <= j < 3 implies rp.0.0.0.spec_entry(
                i,
                j,
            ) == self.to_so3_entry(i, j) by {
                assert(rp.0.0.0.spec_entry(i, j) == self.to_rp_r_entry(i, j));
            }
        }
        rp.0
    }
}

impl<T: Numeric> ToVec<T> for Se3Matrix<T> {
    type VecSize = Vector6<T>;

    open spec fn to_vec_req(&self) -> bool {
        self.wf()
    }

    open spec fn to_vec_seq(&self) -> Seq<T> {
        seq![
            self.0.0.spec_entry(2, 1),
            self.0.0.spec_entry(0, 2),
            self.0.0.spec_entry(1, 0),
            self.0.0.spec_entry(0, 3),
            self.0.0.spec_entry(1, 3),
            self.0.0.spec_entry(2, 3),
        ]
    }

    fn to_vec(&self) -> (r: Vector6<T>) {
        let m = &self.0.0;
        Vector6::new(
            m.get(2, 1),
            m.get(0, 2),
            m.get(1, 0),
            m.get(0, 3),
            m.get(1, 3),
            m.get(2, 3),
        )
    }
}

impl<T: Numeric> ToTwist<T> for Se3Matrix<T> {
    open spec fn to_twist_req(&self) -> bool {
        self.wf()
    }

    open spec fn to_twist_seq(&self) -> Seq<T> {
        seq![
            self.0.0.spec_entry(2, 1),
            self.0.0.spec_entry(0, 2),
            self.0.0.spec_entry(1, 0),
            self.0.0.spec_entry(0, 3),
            self.0.0.spec_entry(1, 3),
            self.0.0.spec_entry(2, 3),
        ]
    }

    fn to_twist(&self) -> (r: Twist<T>) {
        let v = self.to_vec();
        proof {
            assert(v.0@ =~= self.to_twist_seq());
        }
        v.to_twist()
    }
}

} // verus!
