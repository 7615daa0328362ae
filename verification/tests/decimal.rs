use gerber_types::{Decimal, PartialGerberCode};

fn text(decimal: &Decimal) -> String {
    let mut code = String::new();
    decimal
        .serialize_partial(&mut code)
        .expect("Could not generate Gerber code");
    code
}

#[test]
fn test_decimal_new() {
    let d = Decimal::new(false, 12, 34, 3).unwrap();
    assert_eq!(text(&d), "12.034");
    let d = Decimal::new(true, 0, 5, 1).unwrap();
    assert_eq!(text(&d), "-0.5");
    let d = Decimal::new(false, 18446744073709551615, 0, 0).unwrap();
    assert_eq!(text(&d), "18446744073709551615");
    let d = Decimal::new(false, 0, 1, 19).unwrap();
    assert_eq!(text(&d), "0.0000000000000000001");
    let d = Decimal::new(false, 0, 9999999999999999999, 19).unwrap();
    assert_eq!(text(&d), "0.9999999999999999999");
    let d = Decimal::new(false, 1, 18446744073709551615, 20).unwrap();
    assert_eq!(text(&d), "1.18446744073709551615");
    let d = Decimal::new(true, 1, 1, 30).unwrap();
    assert_eq!(text(&d), "-1.000000000000000000000000000001");
    let d = Decimal::new(false, 0, 1, 255).unwrap();
    assert_eq!(text(&d).len(), 257);
    assert!(text(&d).starts_with("0.000"));
    assert!(text(&d).ends_with("0001"));
}

#[test]
fn test_decimal_new_rejects() {
    // A fraction that ends in zero.
    assert!(Decimal::new(false, 1, 50, 2).is_none());
    assert!(Decimal::new(false, 1, 0, 1).is_none());
    assert!(Decimal::new(false, 1, 10, 30).is_none());
    // A fraction that does not fit its places.
    assert!(Decimal::new(false, 1, 123, 2).is_none());
    assert!(Decimal::new(false, 1, 1, 0).is_none());
    assert!(Decimal::new(false, 1, 18446744073709551615, 19).is_none());
}

#[test]
fn test_decimal_parse() {
    let d = Decimal::parse("12.034").unwrap();
    assert_eq!(
        (d.has_minus_sign(), d.integer_part(), d.fraction_part()),
        (false, "12", "034")
    );
    let d = Decimal::parse("-0.5").unwrap();
    assert_eq!(
        (d.has_minus_sign(), d.integer_part(), d.fraction_part()),
        (true, "0", "5")
    );
    let d = Decimal::parse("0").unwrap();
    assert_eq!(
        (d.has_minus_sign(), d.integer_part(), d.fraction_part()),
        (false, "0", "")
    );
    let d = Decimal::parse("-0").unwrap();
    assert_eq!(
        (d.has_minus_sign(), d.integer_part(), d.fraction_part()),
        (true, "0", "")
    );
    let d = Decimal::parse("18446744073709551616.00000000000000000001").unwrap();
    assert_eq!(
        (d.has_minus_sign(), d.integer_part(), d.fraction_part()),
        (false, "18446744073709551616", "00000000000000000001")
    );
    assert_eq!(d, Decimal::parse("18446744073709551616.00000000000000000001").unwrap());
    let d = Decimal::new(false, 12, 34, 3).unwrap();
    assert_eq!(d, Decimal::parse("12.034").unwrap());
    assert_eq!(
        (d.has_minus_sign(), d.integer_part(), d.fraction_part()),
        (false, "12", "034")
    );
}

#[test]
fn test_decimal_parse_rejects() {
    for text in [
        "",
        "-",
        ".",
        ".5",
        "5.",
        "-.5",
        "+5",
        "05",
        "00",
        "-01.5",
        "1.50",
        "1.0",
        "1..5",
        "1.5.",
        "1.5x",
        "x1.5",
        "1 5",
        " 1.5",
        "1.5 ",
        "--1",
        "1-",
        "1e5",
        "NaN",
        "inf",
        "-inf",
        "\u{661}",
        "1.\u{665}",
        "1\u{e9}",
        "0.10000000000000000000000000000000000000",
        "0123456789012345678901234567890",
    ] {
        assert!(Decimal::parse(text).is_none(), "{:?}", text);
    }
}

#[test]
/// What `parse` reads renders as the text that was read.
fn test_decimal_parse_round_trip() {
    for source in [
        "0",
        "-0",
        "7",
        "10",
        "-10",
        "0.1",
        "-0.1",
        "0.05",
        "100.001",
        "3.14159",
        "0.0125",
        "99.9",
        "1234567890.0987654321",
        "18446744073709551615",
        "0.0000000000000000001",
        "18446744073709551616",
        "99999999999999999999",
        "123456789012345678901234567890.123456789012345678901234567891",
        "0.00000000000000000001",
        "-1.12345678901234567891",
    ] {
        let d = Decimal::parse(source).unwrap();
        assert_eq!(text(&d), source);
        assert_eq!(d.clone(), d);
        assert_eq!(text(&d.clone()), source);
    }
}

#[test]
/// The text of a floating-point number, as `Display` gives it, reads as the same number.
fn test_decimal_from_float_text() {
    for value in [
        0.0f64, -0.0, 1.0, -1.0, 0.5, 4.5, 30.6, 0.055, 0.0125, 0.003, 0.150, 87.3, 1e-7, 1e15,
        123456.888888,
    ] {
        let source = format!("{}", value);
        let d = Decimal::parse(&source).unwrap();
        assert_eq!(text(&d), source);
        assert_eq!(text(&d).parse::<f64>().unwrap(), value);
    }
    assert!(Decimal::parse(&format!("{}", f64::NAN)).is_none());
    assert!(Decimal::parse(&format!("{}", f64::INFINITY)).is_none());
    assert!(Decimal::parse(&format!("{}", f64::NEG_INFINITY)).is_none());
}

#[test]
/// Every finite floating-point number displays as a decimal, the largest and the smallest
/// too.
fn test_decimal_from_extreme_floats() {
    for value in [
        f64::MAX,
        f64::MIN,
        f64::MIN_POSITIVE,
        -f64::MIN_POSITIVE,
        f64::MIN_POSITIVE / 4503599627370496.0,
        f64::EPSILON,
        1e300,
        1e-300,
        1.7976931348623157e308,
        4.9e-324,
        0.1 + 0.2,
        1.0 / 3.0,
        f32::MAX as f64,
        f32::MIN_POSITIVE as f64,
    ] {
        let source = format!("{}", value);
        let d = Decimal::parse(&source).unwrap();
        assert_eq!(text(&d), source);
        assert_eq!(text(&d).parse::<f64>().unwrap(), value);
        assert_eq!(d.is_negative(), value < 0.0);
        assert!(!d.is_zero());
    }
    assert_eq!(format!("{}", f64::MAX).len(), 309);
    assert_eq!(format!("{}", 4.9e-324f64).len(), 326);
}

#[test]
fn test_decimal_sign() {
    assert!(Decimal::parse("-0.001").unwrap().is_negative());
    assert!(Decimal::parse("-1").unwrap().is_negative());
    assert!(!Decimal::parse("-0").unwrap().is_negative());
    assert!(!Decimal::parse("0").unwrap().is_negative());
    assert!(!Decimal::parse("0.001").unwrap().is_negative());
    assert!(Decimal::parse("-0").unwrap().is_zero());
    assert!(Decimal::parse("0").unwrap().is_zero());
    assert!(!Decimal::parse("0.1").unwrap().is_zero());
    assert!(!Decimal::parse("1").unwrap().is_zero());
}

#[test]
fn test_decimal_equality() {
    assert_eq!(Decimal::parse("1.5").unwrap(), Decimal::parse("1.5").unwrap());
    assert_eq!(Decimal::parse("0").unwrap(), Decimal::parse("-0").unwrap());
    assert_ne!(Decimal::parse("1.5").unwrap(), Decimal::parse("-1.5").unwrap());
    assert_ne!(Decimal::parse("1.5").unwrap(), Decimal::parse("1.05").unwrap());
    assert_ne!(Decimal::parse("1.5").unwrap(), Decimal::parse("15").unwrap());
    assert_ne!(Decimal::parse("0.1").unwrap(), Decimal::parse("0.01").unwrap());
    assert_ne!(Decimal::parse("0").unwrap(), Decimal::parse("1").unwrap());
}

#[test]
/// Thousandths and their like display as decimals that render as they display.
fn test_decimal_float_grid() {
    for k in -3000i32..=3000 {
        for scale in [1.0f64, 10.0, 100.0, 1000.0, 8.0, 0.5] {
            let value = k as f64 / scale;
            let source = format!("{}", value);
            let d = Decimal::parse(&source).unwrap();
            assert_eq!(text(&d), source);
            assert_eq!(d.is_negative(), value < 0.0);
            assert_eq!(d.is_zero(), value == 0.0);
        }
    }
}

#[test]
/// Equality of decimals is equality of the numbers that they display.
fn test_decimal_equality_grid() {
    let values: Vec<f64> = (-40i32..=40).map(|k| k as f64 / 8.0).chain([-0.0]).collect();
    for &a in values.iter() {
        for &b in values.iter() {
            let da = Decimal::parse(&format!("{}", a)).unwrap();
            let db = Decimal::parse(&format!("{}", b)).unwrap();
            assert_eq!(da == db, a == b, "{} {}", a, b);
        }
    }
}
