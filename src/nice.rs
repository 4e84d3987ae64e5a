use vstd::prelude::*;

use crate::prefix::{is_canonical_exp, nearest_prefix, Prefix};

verus! {

/// The exponent of the prefix that `nice` stacks on a value's prefix: the
/// prefix whose band holds the value's order of magnitude `exp`, upward when
/// the value is above one and downward otherwise.
pub open spec fn nice_shift(exp: int, above_one: bool) -> Prefix {
    nearest_prefix(if above_one { exp } else { -exp })
}

/// Whether `nice` can rescale a value of order of magnitude `exp` given under
/// `prefix`: either it leaves the value as it is, or the stacked prefix
/// composes with `prefix` into a prefix.
pub open spec fn nice_composes(exp: int, above_one: bool, prefix: Prefix) -> bool {
    exp < 3 || is_canonical_exp(nice_shift(exp, above_one).exp() + prefix.exp())
}

/// The prefix under which `nice` shows a value: none (the value stays as it
/// is) below three orders of magnitude, else the composition of the stacked
/// prefix with the value's own prefix.
pub open spec fn nice_prefix_of(exp: int, above_one: bool, prefix: Prefix) -> Option<Prefix> {
    if exp < 3 {
        None
    } else {
        Some(nearest_prefix(nice_shift(exp, above_one).exp() + prefix.exp()))
    }
}

/// Chooses the prefix that makes a value given under `prefix` more readable.
/// `exp` is the whole number of decimal orders of magnitude of the value when
/// `above_one` holds (the value is greater than one), and of its reciprocal
/// otherwise. Returns `None` where the value is left as it is.
pub fn nice_prefix(exp: i16, above_one: bool, prefix: Prefix) -> (r: Option<Prefix>)
    requires
        nice_composes(exp as int, above_one, prefix),
    ensures
        r == nice_prefix_of(exp as int, above_one, prefix),
        r matches Some(t) ==> t.exp() == nice_shift(exp as int, above_one).exp() + prefix.exp(),
{
    if exp < 3 {
        None
    } else {
        let signed: i16 = if above_one {
            exp
        } else {
            -exp
        };
        let (shift, _) = Prefix::from_exp_value(signed);
        Some(shift * prefix)
    }
}

} // verus!
