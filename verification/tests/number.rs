use fluent_number::{FluentArgs, FluentNumber, FluentNumberOptions, FluentValue};

fn format(value: f64, options: FluentNumberOptions) -> String {
    let number = FluentNumber::new(value.to_bits(), options);
    let rendered = format!("{:.*}", number.precision(), value);
    number.as_string(&rendered)
}

fn parse(input: &str) -> FluentNumber {
    let value: f64 = input.parse().unwrap();
    FluentNumber::from_parsed(value.to_bits(), input)
}

fn format_parsed(input: &str) -> String {
    let number = parse(input);
    let rendered = format!("{:.*}", number.precision(), f64::from_bits(number.value));
    number.as_string(&rendered)
}

fn try_number(v: i32) -> FluentValue {
    let text = v.to_string();
    match text.parse::<f64>() {
        Ok(value) => FluentValue::from(FluentNumber::from_parsed(value.to_bits(), &text)),
        Err(_) => FluentValue::String(text),
    }
}

fn with_digits(minimum: Option<usize>, maximum: Option<usize>) -> FluentNumberOptions {
    let mut options = FluentNumberOptions::default();
    options.minimum_fraction_digits = minimum;
    options.maximum_fraction_digits = maximum;
    options
}

#[test]
fn value_from_copy_ref() {
    let x = 1i16;
    let y = &x;
    let z: FluentValue = y.into();
    assert_eq!(z, try_number(1));
}

#[test]
fn new_keeps_value_and_options() {
    let options = with_digits(Some(1), Some(4));
    let number = FluentNumber::new(2.5f64.to_bits(), options.clone());
    assert_eq!(number.value, 2.5f64.to_bits());
    assert_eq!(number.options, options);
}

#[test]
fn precision_is_the_maximum_or_fifteen() {
    let wide = usize::BITS >= 64;
    let plain = FluentNumber::new(0, FluentNumberOptions::default());
    assert_eq!(plain.precision(), if wide { 15 } else { 9 });
    let three = FluentNumber::new(0, with_digits(None, Some(3)));
    assert_eq!(three.precision(), 3);
    let nine = FluentNumber::new(0, with_digits(None, Some(9)));
    assert_eq!(nine.precision(), 9);
    let twenty = FluentNumber::new(0, with_digits(None, Some(20)));
    assert_eq!(twenty.precision(), if wide { 20 } else { 9 });
    let zero = FluentNumber::new(0, with_digits(Some(2), Some(0)));
    assert_eq!(zero.precision(), 0);
}

#[test]
fn formats_with_default_options() {
    assert_eq!(format(1234.5, FluentNumberOptions::default()), "1234.5");
}

#[test]
fn formats_whole_number_without_fraction_digits() {
    assert_eq!(format(1.0, with_digits(None, Some(0))), "1");
}

#[test]
fn zero_maximum_never_shows_a_point() {
    for value in [0.4, 1.0, 2.5, 3.75, 7.0, 12345.678, -3.2, f64::INFINITY, f64::NAN] {
        for minimum in [None, Some(0), Some(2)] {
            let text = format(value, with_digits(minimum, Some(0)));
            assert!(!text.contains('.'), "{} gave {}", value, text);
        }
    }
    assert_eq!(format(2.7, with_digits(None, Some(0))), "3");
    assert_eq!(format(-3.2, with_digits(Some(2), Some(0))), "-3");
}

#[test]
fn zero_maximum_trims_the_zeros_of_the_rendering() {
    assert_eq!(format(10.0, with_digits(None, Some(0))), "1");
    assert_eq!(format(0.0, with_digits(None, Some(0))), "");
}

#[test]
fn precision_then_trim() {
    let text = format(0.1 + 0.2, with_digits(None, Some(15)));
    assert!(text.starts_with("0.3"));
    assert_eq!(text, "0.3");
    assert_eq!(format(0.1 + 0.2, with_digits(None, Some(17))), "0.30000000000000004");
}

#[test]
fn rounds_at_the_maximum() {
    assert_eq!(format(1.23456, with_digits(None, Some(2))), "1.23");
    assert_eq!(format(1.005, with_digits(None, Some(1))), "1");
    assert_eq!(format(-0.125, with_digits(None, Some(3))), "-0.125");
}

#[test]
fn trailing_zeros_are_trimmed() {
    assert_eq!(format(2.50, FluentNumberOptions::default()), "2.5");
    assert_eq!(format(100.0, FluentNumberOptions::default()), "100");
    assert_eq!(format(0.0, FluentNumberOptions::default()), "0");
    assert_eq!(format(-7.0, FluentNumberOptions::default()), "-7");
}

#[test]
fn minimum_is_filled_with_zeros() {
    assert_eq!(format(1.5, with_digits(Some(3), None)), "1.500");
    assert_eq!(format(5.0, with_digits(Some(2), None)), "5.00");
    assert_eq!(format(0.25, with_digits(Some(2), None)), "0.25");
    assert_eq!(format(7.0, with_digits(Some(1), Some(4))), "7.0");
}

#[test]
fn longer_fraction_than_minimum_stays() {
    assert_eq!(format(1.2345, with_digits(Some(2), None)), "1.2345");
    assert_eq!(format(1.2345, with_digits(Some(4), None)), "1.2345");
    assert_eq!(format(1.0, with_digits(Some(0), None)), "1");
    assert_eq!(format(1.5, with_digits(Some(0), None)), "1.5");
}

#[test]
fn minimum_above_maximum_still_fills() {
    assert_eq!(format(1.256, with_digits(Some(4), Some(2))), "1.2600");
}

#[test]
fn non_finite_values_without_minimum() {
    assert_eq!(format(f64::INFINITY, FluentNumberOptions::default()), "inf");
    assert_eq!(format(f64::NEG_INFINITY, FluentNumberOptions::default()), "-inf");
    assert_eq!(format(f64::NAN, FluentNumberOptions::default()), "NaN");
}

#[test]
fn parsing_keeps_the_written_precision() {
    let number = parse("3.140");
    assert_eq!(number.options.minimum_fraction_digits, Some(3));
    assert_eq!(number.value, 3.14f64.to_bits());
    assert_eq!(format_parsed("3.140"), "3.140");
    assert_eq!(format_parsed("1.50"), "1.50");
    assert_eq!(format_parsed("-0.10"), "-0.10");
}

#[test]
fn parsing_whole_number_infers_nothing() {
    let number = parse("10");
    assert_eq!(number.options.minimum_fraction_digits, None);
    assert_eq!(number.options, FluentNumberOptions::default());
    assert_eq!(format_parsed("10"), "10");
}

#[test]
fn parsing_counts_what_follows_the_first_point() {
    assert_eq!(parse("1.").options.minimum_fraction_digits, Some(0));
    assert_eq!(parse(".5").options.minimum_fraction_digits, Some(1));
    assert_eq!(parse("1.5e3").options.minimum_fraction_digits, Some(3));
    assert_eq!(format_parsed("1."), "1");
}

#[test]
fn merge_then_format() {
    let mut args = FluentArgs::new();
    args.set("currency", FluentValue::String("USD".to_string()));
    args.set("minimumFractionDigits", FluentValue::from(2u8));
    let mut options = FluentNumberOptions::default();
    options.merge(&args);
    assert_eq!(options.currency, Some("USD".to_string()));
    assert_eq!(options.minimum_fraction_digits, Some(2));
    assert_eq!(format(5.0, options), "5.00");
}

#[test]
fn numbers_compare_by_value() {
    let nan = FluentNumber::new(f64::NAN.to_bits(), FluentNumberOptions::default());
    assert_ne!(nan, nan.clone());
    let zero = FluentNumber::new(0.0f64.to_bits(), FluentNumberOptions::default());
    let minus_zero = FluentNumber::new((-0.0f64).to_bits(), FluentNumberOptions::default());
    assert_eq!(zero, minus_zero);
    let one = FluentNumber::new(1.0f64.to_bits(), FluentNumberOptions::default());
    assert_ne!(zero, one);
    assert_eq!(one, one.clone());
    let other = FluentNumber::new(1.0f64.to_bits(), with_digits(Some(1), None));
    assert_ne!(one, other);
}

#[test]
fn number_into_value() {
    let number = FluentNumber::new(2.5f64.to_bits(), FluentNumberOptions::default());
    assert_eq!(FluentValue::from(number.clone()), FluentValue::Number(number));
}
