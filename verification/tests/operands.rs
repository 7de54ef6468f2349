use fluent_number::operands::{operands_of, reconcile, scale_digits};
use fluent_number::{FluentNumber, FluentNumberOptions, Operands};

fn operands(value: f64, minimum: Option<usize>, maximum: Option<usize>) -> Option<Operands> {
    let mut options = FluentNumberOptions::default();
    options.minimum_fraction_digits = minimum;
    options.maximum_fraction_digits = maximum;
    let number = FluentNumber::new(value.to_bits(), options);
    let rendered = format!("{:.*}", number.precision(), value);
    number.plural_operands(&rendered)
}

fn read(n: f64, i: u64, v: usize, w: usize, f: u64, t: u64) -> Operands {
    Operands { n: n.to_bits(), i, v, w, f, t }
}

#[test]
fn operands_of_one_with_two_fraction_digits() {
    assert_eq!(operands(1.0, Some(2), None), Some(read(1.0, 1, 2, 0, 0, 0)));
}

#[test]
fn operands_of_a_text() {
    assert_eq!(operands_of("1234.567", None), Some(read(1234.567, 1234, 3, 3, 567, 567)));
    assert_eq!(operands_of("-1.50", None), Some(read(1.5, 1, 2, 1, 50, 5)));
    assert_eq!(operands_of("2", None), Some(read(2.0, 2, 0, 0, 0, 0)));
    assert_eq!(operands_of("0.05", None), Some(read(0.05, 0, 2, 2, 5, 5)));
}

#[test]
fn operands_of_no_number() {
    assert_eq!(operands_of("abc", None), None);
    assert_eq!(operands_of("", Some(2)), None);
    assert_eq!(operands_of("1.", None), None);
    assert_eq!(operands_of("99999999999999999999.5", None), None);
}

#[test]
fn operands_of_plain_numbers() {
    assert_eq!(operands(1234.5, None, None), Some(read(1234.5, 1234, 1, 1, 5, 5)));
    assert_eq!(operands(-2.0, None, None), Some(read(2.0, 2, 0, 0, 0, 0)));
    assert_eq!(operands(1.5, Some(3), None), Some(read(1.5, 1, 3, 1, 500, 5)));
}

#[test]
fn minimum_is_declared_where_the_text_lacks_it() {
    assert_eq!(operands(5.0, Some(2), Some(0)), Some(read(5.0, 5, 2, 0, 0, 0)));
    assert_eq!(operands_of("1.5", Some(3)), Some(read(1.5, 1, 3, 1, 500, 5)));
    assert_eq!(operands_of("7", Some(1)), Some(read(7.0, 7, 1, 0, 0, 0)));
    assert_eq!(operands_of("1.25", Some(2)), Some(read(1.25, 1, 2, 2, 25, 25)));
    assert_eq!(operands_of("1.25", Some(1)), Some(read(1.25, 1, 2, 2, 25, 25)));
}

#[test]
fn scaling_that_does_not_fit() {
    assert_eq!(operands_of("1.5", Some(25)), None);
    assert_eq!(operands_of("1.0", Some(usize::MAX)), Some(read(1.0, 1, usize::MAX, 0, 0, 0)));
}

#[test]
fn reconcile_scales_the_fraction_digits() {
    let before = read(1.5, 1, 1, 1, 5, 5);
    assert_eq!(reconcile(before, Some(3)), read(1.5, 1, 3, 1, 500, 5));
    assert_eq!(reconcile(before, Some(1)), before);
    assert_eq!(reconcile(before, Some(0)), before);
    assert_eq!(reconcile(before, None), before);
    let whole = read(4.0, 4, 0, 0, 0, 0);
    assert_eq!(reconcile(whole, Some(30)), read(4.0, 4, 30, 0, 0, 0));
}

#[test]
fn scale_digits_by_powers_of_ten() {
    assert_eq!(scale_digits(5, 0), Some(5));
    assert_eq!(scale_digits(5, 2), Some(500));
    assert_eq!(scale_digits(0, 1000), Some(0));
    assert_eq!(scale_digits(1, 19), Some(10_000_000_000_000_000_000));
    assert_eq!(scale_digits(1, 20), None);
    assert_eq!(scale_digits(2, 19), None);
    assert_eq!(scale_digits(18, 18), Some(18_000_000_000_000_000_000));
    assert_eq!(scale_digits(19, 18), None);
    assert_eq!(scale_digits(u64::MAX, 0), Some(u64::MAX));
    assert_eq!(scale_digits(u64::MAX, 1), None);
}
