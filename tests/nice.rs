use typed_measurements::nice::nice_prefix;
use typed_measurements::prefix::Prefix;

#[test]
fn thousand_kilo_becomes_mega() {
    // 1000 kV: three orders of magnitude above one
    assert_eq!(nice_prefix(3, true, Prefix::Kilo), Some(Prefix::Mega));
}

#[test]
fn ten_thousand_kilo_becomes_mega() {
    assert_eq!(nice_prefix(4, true, Prefix::Kilo), Some(Prefix::Mega));
}

#[test]
fn thousandth_of_kilo_becomes_no_prefix() {
    // 0.001 kV: its reciprocal has three orders of magnitude
    assert_eq!(nice_prefix(3, false, Prefix::Kilo), Some(Prefix::One));
}

#[test]
fn small_magnitudes_stay_as_they_are() {
    assert_eq!(nice_prefix(0, true, Prefix::Kilo), None);
    assert_eq!(nice_prefix(1, true, Prefix::Kilo), None);
    assert_eq!(nice_prefix(2, true, Prefix::Kilo), None);
    assert_eq!(nice_prefix(2, false, Prefix::Femto), None);
    assert_eq!(nice_prefix(i16::MIN, false, Prefix::Tera), None);
}

#[test]
fn large_magnitudes_stack_the_band_prefix() {
    assert_eq!(nice_prefix(7, true, Prefix::Milli), Some(Prefix::Kilo));
    assert_eq!(nice_prefix(12, true, Prefix::Femto), Some(Prefix::One));
    assert_eq!(nice_prefix(9, false, Prefix::Giga), Some(Prefix::One));
    assert_eq!(nice_prefix(i16::MAX, false, Prefix::Tera), Some(Prefix::One));
}
