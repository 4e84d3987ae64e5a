use typed_measurements::label::{range_label, value_label};
use typed_measurements::prefix::Prefix;
use typed_measurements::uom::{Ampere, Hertz, Second, Uom, Volt, Watt};

#[test]
fn unit_labels() {
    assert_eq!(Volt::uom(), "V");
    assert_eq!(Ampere::uom(), "A");
    assert_eq!(Watt::uom(), "W");
    assert_eq!(Second::uom(), "s");
    assert_eq!(Hertz::uom(), "Hz");
}

#[test]
fn value_label_in_millivolt() {
    assert_eq!(value_label::<Volt>("0.125", Prefix::Milli), "0.125mV");
}

#[test]
fn value_label_without_prefix() {
    assert_eq!(value_label::<Hertz>("50", Prefix::One), "50Hz");
}

#[test]
fn range_label_with_step() {
    assert_eq!(
        range_label::<Volt>("-10", "10", Some("1"), Prefix::Micro),
        "[-10,10,1]uV"
    );
}

#[test]
fn range_label_without_step() {
    assert_eq!(
        range_label::<Ampere>("-2.5", "2.5", None, Prefix::Kilo),
        "[-2.5,2.5,]kA"
    );
}
