//! Spatial velocities: a six-vector twist, its adjoint matrix, and its
//! rigid-transform generator form.

use vstd::prelude::*;

use crate::concat::{Block, bcat, grid_tree, grid_view};
use crate::fixed::{Matrix3, Matrix6, Vector3, Vector6};
use crate::groups::se3::{Se3Matrix, ToSe3, se3_hat_entry};
use crate::groups::so3::{ToSo3, hat3_entry};
use crate::interfaces::Numeric;
use crate::laws::grid_two_by_two_quadrants;
use vstd::pervasive::unreached;

verus! {

/// A spatial velocity: three angular components followed by three linear
/// ones.
pub struct Twist<T: Numeric>(pub Vector6<T>);

impl<T: Numeric> Twist<T> {
    pub open spec fn wf(self) -> bool {
        self.0.wf()
    }
}

/// Conversion into a twist.
pub trait ToTwist<T: Numeric> {
    /// When the conversion is defined.
    spec fn to_twist_req(&self) -> bool;

    /// The six components of the resulting twist, top to bottom.
    spec fn to_twist_seq(&self) -> Seq<T>;

    fn to_twist(&self) -> (r: Twist<T>)
        requires
            self.to_twist_req(),
        ensures
            r.wf(),
            r.0.0@ == self.to_twist_seq(),
    ;
}

/// The 6 by 6 adjoint of a twist: the hat map of the angular part in the
/// two diagonal quadrants, the hat map of the linear part below it, and
/// zeros above.
pub open spec fn ad_entry<T: Numeric>(x: Seq<T>, i: int, j: int) -> T {
    if i < 3 && j < 3 {
        hat3_entry(x.subrange(0, 3), i, j)
    } else if i < 3 {
        T::zero_spec()
    } else if j < 3 {
        hat3_entry(x.subrange(3, 6), i - 3, j)
    } else {
        hat3_entry(x.subrange(0, 3), i - 3, j - 3)
    }
}

/// The adjoint matrix of a twist.
pub trait Ad<T: Numeric> {
    /// When the adjoint is defined.
    spec fn ad_req(&self) -> bool;

    /// The six components the adjoint is built from.
    spec fn ad_seq(&self) -> Seq<T>;

    fn ad(&self) -> (r: Matrix6<T>)
        requires
            self.ad_req(),
        ensures
            r.wf(),
            forall|i: int, j: int|
                0 <= i < 6 && 0 <= j < 6 ==> r.0.spec_entry(i, j) == ad_entry(self.ad_seq(), i, j),
    ;
}

impl<T: Numeric> ToTwist<T> for Vector6<T> {
    open spec fn to_twist_req(&self) -> bool {
        self.wf()
    }

    open spec fn to_twist_seq(&self) -> Seq<T> {
        self.0@
    }

    fn to_twist(&self) -> (r: Twist<T>) {
        Twist(Vector6(self.0.duplicate()))
    }
}

impl<T: Numeric> ToTwist<T> for [T; 6] {
    open spec fn to_twist_req(&self) -> bool {
        true
    }

    open spec fn to_twist_seq(&self) -> Seq<T> {
        self@
    }

    fn to_twist(&self) -> (r: Twist<T>) {
        let r = Twist(Vector6::new(self[0], self[1], self[2], self[3], self[4], self[5]));
        proof {
            assert(r.0.0@ =~= self@);
        }
        r
    }
}

impl<T: Numeric> Ad<T> for Twist<T> {
    open spec fn ad_req(&self) -> bool {
        self.wf() && self.0.0@[0].negatable() && self.0.0@[1].negatable()
            && self.0.0@[2].negatable() && self.0.0@[3].negatable() && self.0.0@[4].negatable()
            && self.0.0@[5].negatable()
    }

    open spec fn ad_seq(&self) -> Seq<T> {
        self.0.0@
    }

    fn ad(&self) -> (r: Matrix6<T>) {
        let wv = Vector3::new(self.0.get(0), self.0.get(1), self.0.get(2));
        let lv = Vector3::new(self.0.get(3), self.0.get(4), self.0.get(5));
        let omega = wv.to_so3();
        let vmat = lv.to_so3();
        let zeros: Matrix3<T> = Matrix3::zeros();
        let ba = Block::leaf(&omega.0.0);
        let bb = Block::leaf(&zeros.0);
        let bc = Block::leaf(&vmat.0.0);
        let bd = Block::leaf(&omega.0.0);
        let grid = vec![vec![ba, bb], vec![bc, bd]];
        proof {
            assert(grid@.len() == 2);
            assert(grid@[0]@ == seq![ba, bb]);
            assert(grid@[1]@ == seq![bc, bd]);
            assert(grid_view(grid@) =~= seq![seq![ba, bb], seq![bc, bd]]);
            grid_two_by_two_quadrants(ba, bb, bc, bd, 3);
        }
        let res = bcat(grid);
        match res {
            Ok(m) => {
                proof {
                    let x = self.0.0@;
                    let t = grid_tree(seq![seq![ba, bb], seq![bc, bd]]);
                    self.0.0.view_len();
                    assert(x.subrange(0, 3) =~= seq![x[0], x[1], x[2]]);
                    assert(x.subrange(3, 6) =~= seq![x[3], x[4], x[5]]);
                    assert(wv.0@ == x.subrange(0, 3));
                    assert(lv.0@ == x.subrange(3, 6));
                    assert forall|i: int, j: int|
                        0 <= i < 3 && 0 <= j < 3 implies omega.0.0.spec_entry(i, j) == hat3_entry(
                        x.subrange(0, 3),
                        i,
                        j,
                    ) by {
                        assert(omega.0.0.spec_entry(i, j) == wv.to_so3_entry(i, j));
                    }
                    assert forall|i: int, j: int|
                        0 <= i < 3 && 0 <= j < 3 implies vmat.0.0.spec_entry(i, j) == hat3_entry(
                        x.subrange(3, 6),
                        i,
                        j,
                    ) by {
                        assert(vmat.0.0.spec_entry(i, j) == lv.to_so3_entry(i, j));
                    }
                    assert forall|i: int, j: int|
                        0 <= i < 6 && 0 <= j < 6 implies m.spec_entry(i, j) == ad_entry(
                        x,
                        i,
                        j,
                    ) by {
                        assert(m.spec_entry(i, j) == t.entry(i, j));
                        if i < 3 && j < 3 {
                            assert(t.entry(i, j) == ba.entry(i, j));
                            assert(ba.entry(i, j) == omega.0.0.spec_entry(i, j));
                        } else if i < 3 {
                            assert(t.entry(i, (3 + (j - 3))) == bb.entry(i, j - 3));
                            assert(j == 3 + (j - 3));
                            assert(bb.entry(i, j - 3) == zeros.0.spec_entry(i, j - 3));
                        } else if j < 3 {
                            assert(t.entry((3 + (i - 3)), j) == bc.entry(i - 3, j));
                            assert(i == 3 + (i - 3));
                            assert(bc.entry(i - 3, j) == vmat.0.0.spec_entry(i - 3, j));
                        } else {
                            assert(t.entry((3 + (i - 3)), (3 + (j - 3))) == bd.entry(
                                i - 3,
                                j - 3,
                            ));
                            assert(i == 3 + (i - 3) && j == 3 + (j - 3));
                            assert(bd.entry(i - 3, j - 3) == omega.0.0.spec_entry(i - 3, j - 3));
                        }
                    }
                }
                Matrix6(m)
            },
            Err(_) => unreached(),
        }
    }
}

impl<T: Numeric> ToSe3<T> for Twist<T> {
    open spec fn to_se3_req(&self) -> bool {
        self.wf() && self.0.0@[0].negatable() && self.0.0@[1].negatable()
            && self.0.0@[2].negatable()
    }

    open spec fn to_se3_entry(&self, i: int, j: int) -> T {
        se3_hat_entry(self.0.0@, i, j)
    }

    fn to_se3(&self) -> (r: Se3Matrix<T>) {
        let r = self.0.to_se3();
        proof {
            assert forall|i: int, j: int| 0 <= i < 4 && 0 <= j < 4 implies r.0.0.spec_entry(i, j)
                == self.to_se3_entry(i, j) by {
                assert(r.0.0.spec_entry(i, j) == self.0.to_se3_entry(i, j));
            }
        }
        r
    }
}

} // verus!
