use openweathermap_lib::decimal::Decimal;
use openweathermap_lib::text::integer_to_string;

fn dec(text: &str) -> Decimal {
    Decimal::parse(text).expect("a decimal number")
}

#[test]
fn parse_reads_sign_digits_and_scale() {
    let d = dec("-79.3832");
    assert!(d.is_negative());
    assert_eq!(d.magnitude(), 793832);
    assert_eq!(d.scale(), 4);
    let w = dec("20");
    assert!(!w.is_negative());
    assert_eq!(w.magnitude(), 20);
    assert_eq!(w.scale(), 0);
}

#[test]
fn parse_keeps_trailing_zeros() {
    let d = dec("2.50");
    assert_eq!(d.magnitude(), 250);
    assert_eq!(d.scale(), 2);
    assert_eq!(d.to_text(), "2.50");
}

#[test]
fn parse_rejects_what_is_no_number() {
    for text in ["", "-", ".", ".5", "5.", "+1", "1e5", " 1", "1 ", "1.2.3", "--1", "1-", "NaN", "inf", "12a", "٣"] {
        assert!(Decimal::parse(text).is_none(), "{:?} was read as a number", text);
    }
}

#[test]
fn parse_limits() {
    assert_eq!(dec("18446744073709551615").magnitude(), u64::MAX);
    assert!(Decimal::parse("18446744073709551616").is_none());
    assert!(Decimal::parse("1844674407370955161.6").is_none());
    assert_eq!(dec("0.123456789012345678").scale(), 18);
    assert!(Decimal::parse("0.1234567890123456789").is_none());
    assert_eq!(dec("000000000000000000000000007").magnitude(), 7);
}

#[test]
fn new_accepts_scales_up_to_eighteen() {
    assert!(Decimal::new(false, 1, 18).is_some());
    assert!(Decimal::new(false, 1, 19).is_none());
    let d = Decimal::new(true, 2777, 2).unwrap();
    assert_eq!(d, dec("-27.77"));
}

#[test]
fn text_round_trips_through_parse() {
    for text in ["0", "-0", "7", "43.6532", "-79.3832", "0.05", "-0.000000000000000001", "18446744073709551615", "1.0", "100.00"] {
        assert_eq!(dec(text).to_text(), text);
        assert_eq!(dec(&dec(text).to_text()), dec(text));
    }
}

#[test]
fn from_integer_covers_the_whole_range() {
    assert_eq!(Decimal::from_integer(0).to_text(), "0");
    assert_eq!(Decimal::from_integer(-5).to_text(), "-5");
    assert_eq!(Decimal::from_integer(i64::MAX).to_text(), "9223372036854775807");
    assert_eq!(Decimal::from_integer(i64::MIN).to_text(), "-9223372036854775808");
    assert_eq!(Decimal::zero(), Decimal::from_integer(0));
}

#[test]
fn one_decimal_rounds_to_the_nearest_tenth() {
    assert_eq!(dec("27.77").to_one_decimal(), "27.8");
    assert_eq!(dec("27.74").to_one_decimal(), "27.7");
    assert_eq!(dec("81.986").to_one_decimal(), "82.0");
    assert_eq!(dec("20").to_one_decimal(), "20.0");
    assert_eq!(dec("3.6").to_one_decimal(), "3.6");
    assert_eq!(dec("9.99").to_one_decimal(), "10.0");
    assert_eq!(dec("-12.345").to_one_decimal(), "-12.3");
    assert_eq!(dec("0.04").to_one_decimal(), "0.0");
    assert_eq!(dec("-0.04").to_one_decimal(), "-0.0");
    assert_eq!(dec("18446744073709551615").to_one_decimal(), "18446744073709551615.0");
    assert_eq!(dec("1844674407370955161.5").to_one_decimal(), "1844674407370955161.5");
    assert_eq!(dec("184467440737095516.15").to_one_decimal(), "184467440737095516.2");
}

#[test]
fn one_decimal_rounds_ties_to_the_even_tenth() {
    assert_eq!(dec("0.25").to_one_decimal(), "0.2");
    assert_eq!(dec("0.35").to_one_decimal(), "0.4");
    assert_eq!(dec("0.75").to_one_decimal(), "0.8");
    assert_eq!(dec("0.250").to_one_decimal(), "0.2");
    assert_eq!(dec("0.2500001").to_one_decimal(), "0.3");
    assert_eq!(dec("0.05").to_one_decimal(), "0.0");
    assert_eq!(dec("0.15").to_one_decimal(), "0.2");
}

#[test]
fn one_decimal_agrees_with_float_formatting_on_exact_binary_values() {
    for (text, value) in [("0.25", 0.25f64), ("0.75", 0.75), ("1.125", 1.125), ("27.5", 27.5), ("-3.875", -3.875), ("300.0625", 300.0625)] {
        assert_eq!(dec(text).to_one_decimal(), format!("{:.1}", value));
    }
}

#[test]
fn is_within_compares_values_not_digits() {
    assert!(dec("180").is_within(-180, 180));
    assert!(dec("180.000").is_within(-180, 180));
    assert!(dec("-180.0").is_within(-180, 180));
    assert!(!dec("180.0000000000000001").is_within(-180, 180));
    assert!(dec("179.9999999999999999").is_within(-180, 180));
    assert!(Decimal::parse("180.000000000000000001").is_none());
    assert!(!dec("-180.1").is_within(-180, 180));
    assert!(dec("-0").is_within(0, 0));
    assert!(dec("18446744073709551615").is_within(i32::MIN, i32::MAX) == false);
    assert!(dec("2147483647").is_within(i32::MIN, i32::MAX));
    assert!(dec("-2147483648.000000000").is_within(i32::MIN, i32::MAX));
    assert!(!dec("5").is_within(6, 4));
}

#[test]
fn is_non_negative_counts_minus_zero_as_zero() {
    assert!(dec("0").is_non_negative());
    assert!(dec("-0").is_non_negative());
    assert!(dec("-0.000").is_non_negative());
    assert!(dec("3.6").is_non_negative());
    assert!(!dec("-0.001").is_non_negative());
}

#[test]
fn integers_are_written_with_their_sign() {
    assert_eq!(integer_to_string(0), "0");
    assert_eq!(integer_to_string(220), "220");
    assert_eq!(integer_to_string(-14400), "-14400");
    assert_eq!(integer_to_string(i64::MIN), i64::MIN.to_string());
    assert_eq!(integer_to_string(i64::MAX), i64::MAX.to_string());
}
