use charming::number::{Number, POSITIONAL_MAX};

fn text(mantissa: i64, exponent: i16) -> String {
    Number::decimal(mantissa, exponent).to_text()
}

#[test]
fn whole_numbers_are_written_in_decimal() {
    assert_eq!(Number::integer(0).to_text(), "0");
    assert_eq!(Number::integer(7).to_text(), "7");
    assert_eq!(Number::integer(300).to_text(), "300");
    assert_eq!(Number::integer(-120).to_text(), "-120");
    assert_eq!(Number::integer(1234567890123).to_text(), "1234567890123");
}

#[test]
fn the_ends_of_the_range_are_written_in_full() {
    assert_eq!(Number::integer(i64::MAX).to_text(), "9223372036854775807");
    assert_eq!(Number::integer(i64::MIN).to_text(), "-9223372036854775808");
}

#[test]
fn integer_and_decimal_agree_on_exponent_zero() {
    assert_eq!(Number::integer(42), Number::decimal(42, 0));
    assert_eq!(Number::integer(42), Number { mantissa: 42, exponent: 0 });
}

#[test]
fn a_negative_exponent_sets_the_point_in_place() {
    assert_eq!(text(5, -1), "0.5");
    assert_eq!(text(12345, -2), "123.45");
    assert_eq!(text(5, -3), "0.005");
    assert_eq!(text(-25, -1), "-2.5");
    assert_eq!(text(-25, -2), "-0.25");
    assert_eq!(text(4, -1), "0.4");
}

#[test]
fn digits_are_kept_as_given() {
    assert_eq!(text(50, -1), "5.0");
    assert_eq!(text(3000, -1), "300.0");
    assert_eq!(text(0, -1), "0.0");
    assert_eq!(text(0, -2), "0.00");
}

#[test]
fn the_point_is_set_in_place_up_to_the_limit() {
    assert_eq!(POSITIONAL_MAX, 20);
    assert_eq!(text(1, -20), "0.00000000000000000001");
    assert_eq!(text(1, -21), "1e-21");
    assert_eq!(text(-17, -300), "-17e-300");
}

#[test]
fn a_positive_exponent_is_written_behind_the_mantissa() {
    assert_eq!(text(5, 3), "5e3");
    assert_eq!(text(-12, 1), "-12e1");
    assert_eq!(text(1, 308), "1e308");
    assert_eq!(text(0, 5), "0e5");
}

#[test]
fn the_ends_of_the_exponent_range_are_written() {
    assert_eq!(text(1, i16::MAX), "1e32767");
    assert_eq!(text(1, i16::MIN), "1e-32768");
}

#[test]
fn every_written_number_is_read_back_as_the_same_quantity() {
    let cases: Vec<(i64, i16, f64)> = vec![
        (0, 0, 0.0),
        (300, 0, 300.0),
        (-120, 0, -120.0),
        (5, -1, 0.5),
        (12345, -2, 123.45),
        (5, -3, 0.005),
        (-25, -2, -0.25),
        (5, 3, 5000.0),
        (1, -21, 1e-21),
        (17, -300, 17e-300),
        (1, 308, 1e308),
    ];
    for (mantissa, exponent, expected) in cases {
        let written = text(mantissa, exponent);
        let read: f64 = serde_json::from_str(&written).unwrap();
        assert_eq!(read, expected, "{}", written);
    }
}

#[test]
fn whole_numbers_convert_exactly() {
    assert_eq!(Number::from(2i32), Number::integer(2));
    assert_eq!(Number::from(-2i8), Number::integer(-2));
    assert_eq!(Number::from(i16::MIN), Number::integer(-32768));
    assert_eq!(Number::from(i32::MAX), Number::integer(2147483647));
    assert_eq!(Number::from(255u8), Number::integer(255));
    assert_eq!(Number::from(u16::MAX), Number::integer(65535));
    assert_eq!(Number::from(u32::MAX), Number::integer(4294967295));
    assert_eq!(Number::from(i64::MIN), Number::integer(i64::MIN));
    let n: Number = 9007199254740993i64.into();
    assert_eq!(n.to_text(), "9007199254740993");
}

#[test]
fn number_write_appends_to_what_is_there() {
    let mut out = String::from("x=");
    Number::decimal(15, -1).write(&mut out);
    assert_eq!(out, "x=1.5");
}
