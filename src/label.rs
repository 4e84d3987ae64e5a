use vstd::prelude::*;

use crate::prefix::Prefix;
use crate::uom::Uom;

verus! {

/// The label of a single value: its text, the prefix's label, the unit's label.
pub open spec fn value_label_of<U: Uom>(value: Seq<char>, prefix: Prefix) -> Seq<char> {
    value + prefix.label() + U::unit_label()
}

/// The text of an optional step: the step itself, or nothing.
pub open spec fn step_text(step: Option<&str>) -> Seq<char> {
    match step {
        Some(s) => s@,
        None => seq![],
    }
}

/// The label of a range: "[min,max,step]" followed by the prefix's label and
/// the unit's label, with an empty step where there is none.
pub open spec fn range_label_of<U: Uom>(
    min: Seq<char>,
    max: Seq<char>,
    step: Seq<char>,
    prefix: Prefix,
) -> Seq<char> {
    seq!['['] + min + seq![','] + max + seq![','] + step + seq![']'] + prefix.label()
        + U::unit_label()
}

/// Builds the label of a value of unit `U` from the value's text, as in
/// "0.125mV".
pub fn value_label<U: Uom>(value: &str, prefix: Prefix) -> (r: String)
    ensures
        r@ == value_label_of::<U>(value@, prefix),
{
    let mut s = String::from_str(value);
    s.append(prefix.get_label());
    let u = U::uom();
    s.append(u.as_str());
    s
}

/// Builds the label of a range of unit `U` from the texts of its bounds and
/// step, as in "[-10,10,1]uV".
pub fn range_label<U: Uom>(min: &str, max: &str, step: Option<&str>, prefix: Prefix) -> (r: String)
    ensures
        r@ == range_label_of::<U>(min@, max@, step_text(step), prefix),
{
    proof {
        reveal_strlit("[");
        reveal_strlit(",");
        reveal_strlit("]");
    }
    let mut s = String::from_str("[");
    s.append(min);
    s.append(",");
    s.append(max);
    s.append(",");
    match step {
        Some(t) => s.append(t),
        None => {},
    }
    s.append("]");
    s.append(prefix.get_label());
    let u = U::uom();
    s.append(u.as_str());
    proof {
        assert(s@ =~= range_label_of::<U>(min@, max@, step_text(step), prefix));
    }
    s
}

} // verus!
