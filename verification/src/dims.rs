//! The shape algebra: axis sizes that are either fixed when the expression
//! is built or only known at run time, with addition and unification.

use vstd::prelude::*;

verus! {

/// One axis size of a block. A `StaticallyKnown` size is fixed when the
/// block expression is built, so a verified caller can rule out mismatches
/// before evaluation; a `DynamicallyKnown` size is only learned at run time
/// and is checked when two dimensions are unified.
#[derive(Clone, Copy, Debug, PartialEq, Eq, Structural)]
pub enum Dimension {
    StaticallyKnown(usize),
    DynamicallyKnown(usize),
}

/// The axis on which two blocks disagreed: row counts for a horizontal
/// join, column counts for a vertical one.
#[derive(Clone, Copy, Debug, PartialEq, Eq, Structural)]
pub enum Axis {
    Rows,
    Cols,
}

/// The failure reported when two blocks that are joined disagree on the
/// axis they must share: it names the axis and both conflicting sizes.
#[derive(Clone, Copy, Debug, PartialEq, Eq, Structural)]
pub struct ShapeMismatch {
    pub axis: Axis,
    pub left: usize,
    pub right: usize,
}

impl Dimension {
    /// The run-time value of the axis size, whichever way it is known.
    pub open spec fn value_spec(self) -> usize {
        match self {
            Dimension::StaticallyKnown(n) => n,
            Dimension::DynamicallyKnown(n) => n,
        }
    }

    pub open spec fn is_statically_known(self) -> bool {
        self is StaticallyKnown
    }

    pub fn value(&self) -> (n: usize)
        ensures
            n == self.value_spec(),
    {
        match self {
            Dimension::StaticallyKnown(n) => *n,
            Dimension::DynamicallyKnown(n) => *n,
        }
    }
}

/// The sum of two dimensions: statically known exactly when both inputs are.
pub open spec fn spec_dim_add(a: Dimension, b: Dimension) -> Dimension {
    if a.is_statically_known() && b.is_statically_known() {
        Dimension::StaticallyKnown((a.value_spec() + b.value_spec()) as usize)
    } else {
        Dimension::DynamicallyKnown((a.value_spec() + b.value_spec()) as usize)
    }
}

/// The representative of two dimensions that must agree: defined when the
/// values match, and statically known exactly when both inputs are. On a
/// mismatch it reports both conflicting values.
pub open spec fn spec_unify(a: Dimension, b: Dimension) -> Result<Dimension, (usize, usize)> {
    if a.value_spec() == b.value_spec() {
        if a.is_statically_known() && b.is_statically_known() {
            Ok(Dimension::StaticallyKnown(a.value_spec()))
        } else {
            Ok(Dimension::DynamicallyKnown(a.value_spec()))
        }
    } else {
        Err((a.value_spec(), b.value_spec()))
    }
}

/// Adds two axis sizes, keeping the static tag only when both inputs carry it.
pub fn dim_add(a: Dimension, b: Dimension) -> (c: Dimension)
    requires
        a.value_spec() + b.value_spec() <= usize::MAX,
    ensures
        c == spec_dim_add(a, b),
{
    let v = a.value() + b.value();
    match (a, b) {
        (Dimension::StaticallyKnown(_), Dimension::StaticallyKnown(_)) => Dimension::StaticallyKnown(v),
        _ => Dimension::DynamicallyKnown(v),
    }
}

/// Unifies two axis sizes that must agree, returning one representative,
/// or both conflicting values when they differ.
pub fn unify(a: Dimension, b: Dimension) -> (r: Result<Dimension, (usize, usize)>)
    ensures
        r == spec_unify(a, b),
{
    let va = a.value();
    let vb = b.value();
    if va == vb {
        match (a, b) {
            (Dimension::StaticallyKnown(_), Dimension::StaticallyKnown(_)) => Ok(Dimension::StaticallyKnown(va)),
            _ => Ok(Dimension::DynamicallyKnown(va)),
        }
    } else {
        Err((va, vb))
    }
}

} // verus!
