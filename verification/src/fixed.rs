//! Fixed-size matrix and vector wrappers around `Mat`: the shapes the
//! kinematics layer works with, each carrying its size as an invariant.

use vstd::prelude::*;

use crate::interfaces::Numeric;
use crate::mat::Mat;

verus! {

/// A 3 by 3 matrix.
#[derive(Clone, Debug, PartialEq, Eq)]
pub struct Matrix3<T>(pub Mat<T>);

/// A 4 by 4 matrix.
#[derive(Clone, Debug, PartialEq, Eq)]
pub struct Matrix4<T>(pub Mat<T>);

/// A 6 by 6 matrix.
#[derive(Clone, Debug, PartialEq, Eq)]
pub struct Matrix6<T>(pub Mat<T>);

/// A column vector with three components.
#[derive(Clone, Debug, PartialEq, Eq)]
pub struct Vector3<T>(pub Mat<T>);

/// A column vector with six components.
#[derive(Clone, Debug, PartialEq, Eq)]
pub struct Vector6<T>(pub Mat<T>);

/// What the column-vector shapes share: a well-formedness invariant and a
/// flat view of their components.
pub trait ColumnVector<T>: Sized {
    /// The wrapped matrix is one column of the right height.
    spec fn col_wf(self) -> bool;

    /// The components, top to bottom.
    spec fn col_entries(self) -> Seq<T>;
}

impl<T> ColumnVector<T> for Vector3<T> {
    open spec fn col_wf(self) -> bool {
        self.wf()
    }

    open spec fn col_entries(self) -> Seq<T> {
        self.0@
    }
}

impl<T> ColumnVector<T> for Vector6<T> {
    open spec fn col_wf(self) -> bool {
        self.wf()
    }

    open spec fn col_entries(self) -> Seq<T> {
        self.0@
    }
}

impl<T> Matrix3<T> {
    pub open spec fn wf(self) -> bool {
        self.0.wf() && self.0.spec_rows() == 3 && self.0.spec_cols() == 3
    }
}

impl<T> Matrix4<T> {
    pub open spec fn wf(self) -> bool {
        self.0.wf() && self.0.spec_rows() == 4 && self.0.spec_cols() == 4
    }
}

impl<T> Matrix6<T> {
    pub open spec fn wf(self) -> bool {
        self.0.wf() && self.0.spec_rows() == 6 && self.0.spec_cols() == 6
    }
}

impl<T> Vector3<T> {
    pub open spec fn wf(self) -> bool {
        self.0.wf() && self.0.spec_rows() == 3 && self.0.spec_cols() == 1
    }
}

impl<T> Vector6<T> {
    pub open spec fn wf(self) -> bool {
        self.0.wf() && self.0.spec_rows() == 6 && self.0.spec_cols() == 1
    }
}

impl<T: Copy> Matrix3<T> {
    /// Builds the matrix from its nine entries, row-major.
    pub fn new(m11: T, m12: T, m13: T, m21: T, m22: T, m23: T, m31: T, m32: T, m33: T) -> (r:
        Matrix3<T>)
        ensures
            r.wf(),
            r.0@ == seq![m11, m12, m13, m21, m22, m23, m31, m32, m33],
            r.0.spec_entry(0, 0) == m11 && r.0.spec_entry(0, 1) == m12 && r.0.spec_entry(0, 2)
                == m13,
            r.0.spec_entry(1, 0) == m21 && r.0.spec_entry(1, 1) == m22 && r.0.spec_entry(1, 2)
                == m23,
            r.0.spec_entry(2, 0) == m31 && r.0.spec_entry(2, 1) == m32 && r.0.spec_entry(2, 2)
                == m33,
    {
        let data = vec![m11, m12, m13, m21, m22, m23, m31, m32, m33];
        Matrix3(Mat::from_flat(3, 3, data))
    }
}

impl<T: Numeric> Matrix3<T> {
    /// The 3 by 3 matrix of zeros.
    pub fn zeros() -> (r: Matrix3<T>)
        ensures
            r.wf(),
            forall|i: int, j: int|
                0 <= i < 3 && 0 <= j < 3 ==> r.0.spec_entry(i, j) == T::zero_spec(),
    {
        Matrix3(Mat::zeros(3, 3))
    }
}

impl<T: Copy> Matrix4<T> {
    /// Builds the matrix from its sixteen entries, row-major.
    pub fn new(
        m11: T,
        m12: T,
        m13: T,
        m14: T,
        m21: T,
        m22: T,
        m23: T,
        m24: T,
        m31: T,
        m32: T,
        m33: T,
        m34: T,
        m41: T,
        m42: T,
        m43: T,
        m44: T,
    ) -> (r: Matrix4<T>)
        ensures
            r.wf(),
            r.0@ == seq![
                m11,
                m12,
                m13,
                m14,
                m21,
                m22,
                m23,
                m24,
                m31,
                m32,
                m33,
                m34,
                m41,
                m42,
                m43,
                m44,
            ],
            r.0.spec_entry(0, 0) == m11 && r.0.spec_entry(0, 1) == m12 && r.0.spec_entry(0, 2)
                == m13 && r.0.spec_entry(0, 3) == m14,
            r.0.spec_entry(1, 0) == m21 && r.0.spec_entry(1, 1) == m22 && r.0.spec_entry(1, 2)
                == m23 && r.0.spec_entry(1, 3) == m24,
            r.0.spec_entry(2, 0) == m31 && r.0.spec_entry(2, 1) == m32 && r.0.spec_entry(2, 2)
                == m33 && r.0.spec_entry(2, 3) == m34,
            r.0.spec_entry(3, 0) == m41 && r.0.spec_entry(3, 1) == m42 && r.0.spec_entry(3, 2)
                == m43 && r.0.spec_entry(3, 3) == m44,
    {
        let data = vec![
            m11,
            m12,
            m13,
            m14,
            m21,
            m22,
            m23,
            m24,
            m31,
            m32,
            m33,
            m34,
            m41,
            m42,
            m43,
            m44,
        ];
        Matrix4(Mat::from_flat(4, 4, data))
    }
}

impl<T: Copy> Matrix6<T> {
    /// Builds the matrix from its thirty-six entries, row-major.
    pub fn new(
        m11: T,
        m12: T,
        m13: T,
        m14: T,
        m15: T,
        m16: T,
        m21: T,
        m22: T,
        m23: T,
        m24: T,
        m25: T,
        m26: T,
        m31: T,
        m32: T,
        m33: T,
        m34: T,
        m35: T,
        m36: T,
        m41: T,
        m42: T,
        m43: T,
        m44: T,
        m45: T,
        m46: T,
        m51: T,
        m52: T,
        m53: T,
        m54: T,
        m55: T,
        m56: T,
        m61: T,
        m62: T,
        m63: T,
        m64: T,
        m65: T,
        m66: T,
    ) -> (r: Matrix6<T>)
        ensures
            r.wf(),
            r.0@ == seq![
                m11,
                m12,
                m13,
                m14,
                m15,
                m16,
                m21,
                m22,
                m23,
                m24,
                m25,
                m26,
                m31,
                m32,
                m33,
                m34,
                m35,
                m36,
                m41,
                m42,
                m43,
                m44,
                m45,
                m46,
                m51,
                m52,
                m53,
                m54,
                m55,
                m56,
                m61,
                m62,
                m63,
                m64,
                m65,
                m66,
            ],
    {
        let data = vec![
            m11,
            m12,
            m13,
            m14,
            m15,
            m16,
            m21,
            m22,
            m23,
            m24,
            m25,
            m26,
            m31,
            m32,
            m33,
            m34,
            m35,
            m36,
            m41,
            m42,
            m43,
            m44,
            m45,
            m46,
            m51,
            m52,
            m53,
            m54,
            m55,
            m56,
            m61,
            m62,
            m63,
            m64,
            m65,
            m66,
        ];
        Matrix6(Mat::from_flat(6, 6, data))
    }
}

impl<T: Copy> Vector3<T> {
    /// Builds the vector from its three components.
    pub fn new(x: T, y: T, z: T) -> (r: Vector3<T>)
        ensures
            r.wf(),
            r.0@ == seq![x, y, z],
            r.0.spec_entry(0, 0) == x && r.0.spec_entry(1, 0) == y && r.0.spec_entry(2, 0) == z,
    {
        let data = vec![x, y, z];
        Vector3(Mat::from_flat(3, 1, data))
    }

    /// The component at position `i`.
    pub fn get(&self, i: usize) -> (v: T)
        requires
            self.wf(),
            i < 3,
        ensures
            v == self.0@[i as int],
    {
        proof {
            self.0.entry_eq(i as int, 0);
        }
        self.0.get(i, 0)
    }
}

impl<T: Copy> Vector6<T> {
    /// Builds the vector from its six components.
    pub fn new(a: T, b: T, c: T, d: T, e: T, f: T) -> (r: Vector6<T>)
        ensures
            r.wf(),
            r.0@ == seq![a, b, c, d, e, f],
            r.0.spec_entry(0, 0) == a && r.0.spec_entry(1, 0) == b && r.0.spec_entry(2, 0) == c,
            r.0.spec_entry(3, 0) == d && r.0.spec_entry(4, 0) == e && r.0.spec_entry(5, 0) == f,
    {
        let data = vec![a, b, c, d, e, f];
        Vector6(Mat::from_flat(6, 1, data))
    }

    /// The component at position `i`.
    pub fn get(&self, i: usize) -> (v: T)
        requires
            self.wf(),
            i < 6,
        ensures
            v == self.0@[i as int],
    {
        proof {
            self.0.entry_eq(i as int, 0);
        }
        self.0.get(i, 0)
    }
}

} // verus!
