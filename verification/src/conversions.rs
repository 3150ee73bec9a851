//! Conversions between whole transforms and their parts.

use vstd::prelude::*;

use crate::fixed::{Matrix3, Matrix4, Vector3};
use crate::interfaces::Numeric;

verus! {

/// Splits a homogeneous transform into its rotation block, the upper-left
/// 3 by 3 corner, and its translation column, the first three entries of
/// the last column.
pub fn trans_to_rp<T: Numeric>(v: Matrix4<T>) -> (rp: (Matrix3<T>, Vector3<T>))
    requires
        v.wf(),
    ensures
        rp.0.wf(),
        rp.1.wf(),
        forall|i: int, j: int|
            0 <= i < 3 && 0 <= j < 3 ==> rp.0.0.spec_entry(i, j) == v.0.spec_entry(i, j),
        forall|i: int| 0 <= i < 3 ==> rp.1.0@[i] == v.0.spec_entry(i, 3),
{
    let m = &v.0;
    let r = Matrix3::new(
        m.get(0, 0),
        m.get(0, 1),
        m.get(0, 2),
        m.get(1, 0),
        m.get(1, 1),
        m.get(1, 2),
        m.get(2, 0),
        m.get(2, 1),
        m.get(2, 2),
    );
    let p = Vector3::new(m.get(0, 3), m.get(1, 3), m.get(2, 3));
    (r, p)
}

} // verus!
