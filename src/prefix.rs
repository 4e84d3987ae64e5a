use vstd::prelude::*;

verus! {

/// An SI magnitude prefix, from tera (10^12) down to femto (10^-12); `One`
/// is the absence of a prefix (10^0).
#[derive(PartialEq, Eq, Structural, Debug, Clone, Copy)]
pub enum Prefix {
    Tera,
    Giga,
    Mega,
    Kilo,
    One,
    Milli,
    Micro,
    Nano,
    Femto,
}

/// Whether `e` is the exponent of one of the prefixes.
pub open spec fn is_canonical_exp(e: int) -> bool {
    -12 <= e <= 12 && e % 3 == 0
}

/// The prefix whose band holds the exponent `e`: each band runs from a
/// prefix's exponent up to the next one, tera takes every exponent from 12
/// up and femto every exponent below -9.
pub open spec fn nearest_prefix(e: int) -> Prefix {
    if e >= 12 {
        Prefix::Tera
    } else if e >= 9 {
        Prefix::Giga
    } else if e >= 6 {
        Prefix::Mega
    } else if e >= 3 {
        Prefix::Kilo
    } else if e >= 0 {
        Prefix::One
    } else if e >= -3 {
        Prefix::Milli
    } else if e >= -6 {
        Prefix::Micro
    } else if e >= -9 {
        Prefix::Nano
    } else {
        Prefix::Femto
    }
}

impl Prefix {
    /// The power of ten that the prefix stands for.
    pub open spec fn exp(self) -> int {
        match self {
            Prefix::Tera => 12,
            Prefix::Giga => 9,
            Prefix::Mega => 6,
            Prefix::Kilo => 3,
            Prefix::One => 0,
            Prefix::Milli => -3,
            Prefix::Micro => -6,
            Prefix::Nano => -9,
            Prefix::Femto => -12,
        }
    }

    /// Returns the exponent of ten associated with the prefix (Kilo is 3, Mega is 6).
    pub fn get_exp_value(&self) -> (r: i16)
        ensures
            r as int == self.exp(),
    {
        match self {
            Prefix::Tera => 12,
            Prefix::Giga => 9,
            Prefix::Mega => 6,
            Prefix::Kilo => 3,
            Prefix::One => 0,
            Prefix::Milli => -3,
            Prefix::Micro => -6,
            Prefix::Nano => -9,
            Prefix::Femto => -12,
        }
    }

    /// The exponent of ten by which a value under `self` is rescaled to be
    /// expressed under `other`.
    pub open spec fn conversion_exp(self, other: Prefix) -> int {
        self.exp() - other.exp()
    }

    /// The short label of the prefix.
    pub open spec fn label(self) -> Seq<char> {
        match self {
            Prefix::Tera => seq!['T'],
            Prefix::Giga => seq!['G'],
            Prefix::Mega => seq!['M'],
            Prefix::Kilo => seq!['k'],
            Prefix::One => seq![],
            Prefix::Milli => seq!['m'],
            Prefix::Micro => seq!['u'],
            Prefix::Nano => seq!['n'],
            Prefix::Femto => seq!['f'],
        }
    }

    /// Returns the prefix whose band holds `exp`, and the exponent that is
    /// left over once that prefix is taken out (zero exactly when `exp` is
    /// the exponent of a prefix).
    pub fn from_exp_value(exp: i16) -> (r: (Prefix, i16))
        ensures
            r.0 == nearest_prefix(exp as int),
            r.1 as int == exp as int - r.0.exp(),
            r.1 == 0 <==> is_canonical_exp(exp as int),
    {
        if exp >= 12 {
            (Prefix::Tera, exp - Prefix::Tera.get_exp_value())
        } else if exp >= 9 {
            (Prefix::Giga, exp - Prefix::Giga.get_exp_value())
        } else if exp >= 6 {
            (Prefix::Mega, exp - Prefix::Mega.get_exp_value())
        } else if exp >= 3 {
            (Prefix::Kilo, exp - Prefix::Kilo.get_exp_value())
        } else if exp >= 0 {
            (Prefix::One, exp - Prefix::One.get_exp_value())
        } else if exp >= -3 {
            (Prefix::Milli, exp - Prefix::Milli.get_exp_value())
        } else if exp >= -6 {
            (Prefix::Micro, exp - Prefix::Micro.get_exp_value())
        } else if exp >= -9 {
            (Prefix::Nano, exp - Prefix::Nano.get_exp_value())
        } else {
            (Prefix::Femto, exp - Prefix::Femto.get_exp_value())
        }
    }

    /// Returns the exponent of ten by which a value given under `self` is
    /// multiplied to express it under `other`.
    pub fn get_conversion_exponent(&self, other: Prefix) -> (r: i16)
        ensures
            r as int == self.conversion_exp(other),
    {
        self.get_exp_value() - other.get_exp_value()
    }

    /// Composes two prefixes, or returns `None` where the sum of their
    /// exponents is not the exponent of a prefix.
    pub fn checked_mul(self, rhs: Prefix) -> (r: Option<Prefix>)
        ensures
            is_canonical_exp(self.exp() + rhs.exp()) ==> r == Some(
                nearest_prefix(self.exp() + rhs.exp()),
            ),
            !is_canonical_exp(self.exp() + rhs.exp()) ==> r is None,
    {
        let exp = self.get_exp_value() + rhs.get_exp_value();
        let (p, rem) = Prefix::from_exp_value(exp);
        if rem == 0 {
            Some(p)
        } else {
            None
        }
    }

    /// Returns the short label of the prefix ("k" for kilo, "" for none).
    pub fn get_label(&self) -> (r: &'static str)
        ensures
            r@ == self.label(),
    {
        match self {
            Prefix::Tera => {
                proof { reveal_strlit("T"); }
                "T"
            },
            Prefix::Giga => {
                proof { reveal_strlit("G"); }
                "G"
            },
            Prefix::Mega => {
                proof { reveal_strlit("M"); }
                "M"
            },
            Prefix::Kilo => {
                proof { reveal_strlit("k"); }
                "k"
            },
            Prefix::One => {
                proof { reveal_strlit(""); }
                ""
            },
            Prefix::Milli => {
                proof { reveal_strlit("m"); }
                "m"
            },
            Prefix::Micro => {
                proof { reveal_strlit("u"); }
                "u"
            },
            Prefix::Nano => {
                proof { reveal_strlit("n"); }
                "n"
            },
            Prefix::Femto => {
                proof { reveal_strlit("f"); }
                "f"
            },
        }
    }
}

/// Each prefix is the one whose band holds its own exponent, so a prefix is
/// determined by its exponent and no two prefixes share one.
pub proof fn lemma_exp_round_trip(p: Prefix, q: Prefix)
    ensures
        is_canonical_exp(p.exp()),
        nearest_prefix(p.exp()) == p,
        p.exp() == q.exp() ==> p == q,
{
}

/// Converting from a prefix to itself rescales by ten to the zero, and the
/// rescaling from `q` to `p` undoes the one from `p` to `q`: their exponents
/// are opposite, so a conversion followed by the conversion back rescales by
/// ten to the zero.
pub proof fn lemma_conversion_exp(p: Prefix, q: Prefix)
    ensures
        p.conversion_exp(p) == 0,
        p.conversion_exp(q) == -q.conversion_exp(p),
        p.conversion_exp(q) + q.conversion_exp(p) == 0,
{
}

/// Composes two prefixes: the exponents add up, and the sum must be the
/// exponent of a prefix.
impl core::ops::Mul for Prefix {
    type Output = Prefix;

    fn mul(self, rhs: Prefix) -> (r: Prefix)
        ensures
            r.exp() == self.exp() + rhs.exp(),
    {
        let exp = self.get_exp_value() + rhs.get_exp_value();
        let (p, _) = Prefix::from_exp_value(exp);
        p
    }
}

impl vstd::std_specs::ops::MulSpecImpl for Prefix {
    open spec fn obeys_mul_spec() -> bool {
        true
    }

    open spec fn mul_req(self, rhs: Prefix) -> bool {
        is_canonical_exp(self.exp() + rhs.exp())
    }

    open spec fn mul_spec(self, rhs: Prefix) -> Prefix {
        nearest_prefix(self.exp() + rhs.exp())
    }
}

/// Divides one prefix by another: the exponents are subtracted, and the
/// difference must be the exponent of a prefix.
impl core::ops::Div for Prefix {
    type Output = Prefix;

    fn div(self, rhs: Prefix) -> (r: Prefix)
        ensures
            r.exp() == self.exp() - rhs.exp(),
    {
        let exp = self.get_exp_value() - rhs.get_exp_value();
        let (p, _) = Prefix::from_exp_value(exp);
        p
    }
}

impl vstd::std_specs::ops::DivSpecImpl for Prefix {
    open spec fn obeys_div_spec() -> bool {
        true
    }

    open spec fn div_req(self, rhs: Prefix) -> bool {
        is_canonical_exp(self.exp() - rhs.exp())
    }

    open spec fn div_spec(self, rhs: Prefix) -> Prefix {
        nearest_prefix(self.exp() - rhs.exp())
    }
}

} // verus!
