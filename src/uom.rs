use vstd::prelude::*;

verus! {

/// A unit of measurement: a marker type that carries the unit's label.
pub trait Uom: Clone + Copy + core::fmt::Debug {
    /// The label of the unit ("V" for volt).
    spec fn unit_label() -> Seq<char>;

    /// Returns the label of the unit.
    fn uom() -> (r: String)
        ensures
            r@ == Self::unit_label(),
    ;
}

/// The unit volt (V).
#[derive(PartialEq, Eq, Structural, Debug, Clone, Copy)]
pub struct Volt;

/// The unit ampere (A).
#[derive(PartialEq, Eq, Structural, Debug, Clone, Copy)]
pub struct Ampere;

/// The unit watt (W).
#[derive(PartialEq, Eq, Structural, Debug, Clone, Copy)]
pub struct Watt;

/// The unit second (s).
#[derive(PartialEq, Eq, Structural, Debug, Clone, Copy)]
pub struct Second;

/// The unit hertz (Hz).
#[derive(PartialEq, Eq, Structural, Debug, Clone, Copy)]
pub struct Hertz;

impl Uom for Volt {
    open spec fn unit_label() -> Seq<char> {
        seq!['V']
    }

    fn uom() -> (r: String) {
        proof { reveal_strlit("V"); }
        String::from_str("V")
    }
}

impl Uom for Ampere {
    open spec fn unit_label() -> Seq<char> {
        seq!['A']
    }

    fn uom() -> (r: String) {
        proof { reveal_strlit("A"); }
        String::from_str("A")
    }
}

impl Uom for Watt {
    open spec fn unit_label() -> Seq<char> {
        seq!['W']
    }

    fn uom() -> (r: String) {
        proof { reveal_strlit("W"); }
        String::from_str("W")
    }
}

impl Uom for Second {
    open spec fn unit_label() -> Seq<char> {
        seq!['s']
    }

    fn uom() -> (r: String) {
        proof { reveal_strlit("s"); }
        String::from_str("s")
    }
}

impl Uom for Hertz {
    open spec fn unit_label() -> Seq<char> {
        seq!['H', 'z']
    }

    fn uom() -> (r: String) {
        proof { reveal_strlit("Hz"); }
        String::from_str("Hz")
    }
}

} // verus!
