//! The decision rule of approximate floating-point equality. The
//! floating-point work itself (NaN tests and the distance in units in the
//! last place) is done by the caller; this module decides from its results.
use vstd::prelude::*;

verus! {

/// Decides an approximate float comparison. When both the candidate and the
/// target are NaN, the NaN rule decides before any distance is consulted: a
/// NaN-sensitive matcher accepts, a plain one rejects. Otherwise the outcome
/// is whether the two values lie within the ULP tolerance.
pub fn float_eq_outcome(arg_is_nan: bool, target_is_nan: bool, nan_sensitive: bool, within_ulps: bool) -> (r: bool)
    ensures
        r == if arg_is_nan && target_is_nan {
            nan_sensitive
        } else {
            within_ulps
        },
{
    if target_is_nan && arg_is_nan {
        nan_sensitive
    } else {
        within_ulps
    }
}

} // verus!
