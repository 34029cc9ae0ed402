//! Which values need not be written out.

use vstd::prelude::*;

verus! {

/// Whether a count is zero.
pub fn is_zero_i64(v: &i64) -> (r: bool)
    ensures
        r == (*v == 0),
{
    *v == 0
}

/// Whether a flag is unset.
pub fn is_false(v: &bool) -> (r: bool)
    ensures
        r == !*v,
{
    !*v
}

} // verus!
