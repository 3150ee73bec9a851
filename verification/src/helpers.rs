//! Threshold helpers used by callers of the engine to decide whether a
//! magnitude is negligible.

use vstd::prelude::*;

use core::cmp::Ordering;
use vstd::std_specs::cmp::PartialOrdSpec;
use vstd::std_specs::convert::FromSpec;

verus! {

/// Whether `x` lies strictly below the threshold: the given one, or the
/// unit of the scalar type when none is given.
pub open spec fn near_zero_spec<T: PartialOrd + From<u8>>(x: T, eps: Option<T>) -> bool {
    match eps {
        Some(ep) => x.partial_cmp_spec(&ep) == Some(Ordering::Less),
        None => x.partial_cmp_spec(&T::from_spec(1u8)) == Some(Ordering::Less),
    }
}

/// Decides whether `x` counts as negligible: strictly below `eps` when one
/// is given, and strictly below the scalar's unit otherwise. For integer
/// scalars the default case therefore holds exactly of the values at most
/// zero.
pub fn near_zero<T: PartialOrd + From<u8>>(x: T, eps: Option<T>) -> (r: bool)
    ensures
        T::obeys_partial_cmp_spec() ==> (eps matches Some(ep) ==> r == (x.partial_cmp_spec(&ep)
            == Some(Ordering::Less))),
        T::obeys_partial_cmp_spec() && <T as FromSpec<u8>>::obeys_from_spec() ==> r
            == near_zero_spec(x, eps),
{
    match eps {
        Some(ep) => x.lt(&ep),
        None => {
            let unit = T::from(1u8);
            x.lt(&unit)
        },
    }
}

} // verus!
