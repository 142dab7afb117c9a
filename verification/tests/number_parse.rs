use charming::number::Number;

fn parsed(text: &str) -> Option<(i64, i16)> {
    Number::parse(text).map(|n| (n.mantissa, n.exponent))
}

#[test]
fn whole_literals_are_read() {
    assert_eq!(parsed("0"), Some((0, 0)));
    assert_eq!(parsed("300"), Some((300, 0)));
    assert_eq!(parsed("-120"), Some((-120, 0)));
    assert_eq!(parsed("-0"), Some((0, 0)));
    assert_eq!(parsed("007"), Some((7, 0)));
}

#[test]
fn each_fraction_digit_lowers_the_power_by_one() {
    assert_eq!(parsed("0.5"), Some((5, -1)));
    assert_eq!(parsed("123.45"), Some((12345, -2)));
    assert_eq!(parsed("0.005"), Some((5, -3)));
    assert_eq!(parsed("5.0"), Some((50, -1)));
    assert_eq!(parsed("-2.5"), Some((-25, -1)));
    assert_eq!(parsed("0.00"), Some((0, -2)));
}

#[test]
fn the_exponent_is_added_to_the_power() {
    assert_eq!(parsed("5e3"), Some((5, 3)));
    assert_eq!(parsed("1e-21"), Some((1, -21)));
    assert_eq!(parsed("1.2345e2"), Some((12345, -2)));
    assert_eq!(parsed("-1.5e-7"), Some((-15, -8)));
    assert_eq!(parsed("3e0"), Some((3, 0)));
    assert_eq!(parsed("3e-0"), Some((3, 0)));
    assert_eq!(parsed("1e0005"), Some((1, 5)));
}

#[test]
fn a_text_that_is_no_literal_is_not_read() {
    for text in [
        "", "-", ".", ".5", "5.", "-.5", "1e", "1e-", "e5", "1e+5", "1E5", "+1", " 1", "1 ",
        "1.2.3", "1..2", "abc", "0x10", "1e5.0", "1e5e5", "--1", "1-", "1e--5", "1,5", "١",
        "1.e5", "NaN", "inf", "1_000",
    ] {
        assert_eq!(Number::parse(text), None, "{:?}", text);
    }
}

#[test]
fn the_mantissa_is_read_up_to_the_ends_of_its_range() {
    assert_eq!(parsed("9223372036854775807"), Some((i64::MAX, 0)));
    assert_eq!(parsed("9223372036854775808"), None);
    assert_eq!(parsed("-9223372036854775808"), Some((i64::MIN, 0)));
    assert_eq!(parsed("-9223372036854775809"), None);
    assert_eq!(parsed("922337203685477580.7"), Some((i64::MAX, -1)));
    assert_eq!(parsed("922337203685477580.8"), None);
    assert_eq!(parsed("1000000000000000000000000000000"), None);
    assert_eq!(parsed("100000000000000000000"), None);
    assert_eq!(parsed("100000000000000000001"), None);
    assert_eq!(parsed("0.000000000000000000000000000001"), Some((1, -30)));
    assert_eq!(parsed("000000000000000000000000000001"), Some((1, 0)));
}

#[test]
fn the_power_is_read_up_to_the_ends_of_its_range() {
    assert_eq!(parsed("1e32767"), Some((1, 32767)));
    assert_eq!(parsed("1e32768"), None);
    assert_eq!(parsed("1e-32768"), Some((1, -32768)));
    assert_eq!(parsed("1e-32769"), None);
    assert_eq!(parsed("0.1e-32768"), None);
    assert_eq!(parsed("0.1e-32767"), Some((1, -32768)));
    assert_eq!(parsed("1.5e32768"), Some((15, 32767)));
    assert_eq!(parsed("1e99999999999999999999999999"), None);
    assert_eq!(parsed("1e-99999999999999999999999999"), None);
    assert_eq!(parsed("1e100000000000000000000"), None);
    assert_eq!(parsed("1e00000000000000000000000000001"), Some((1, 1)));
}

#[test]
fn what_is_written_is_read_back() {
    let mantissas = [
        0, 1, -1, 5, 9, 10, -10, 99, 100, 12345, -12345, 300, 1234567890123456789, i64::MAX,
        i64::MIN, i64::MIN + 1,
    ];
    let exponents = [
        0, 1, -1, 2, -2, 3, -3, 17, -17, -19, -20, -21, -22, 100, -100, 308, -324, i16::MAX,
        i16::MIN,
    ];
    for mantissa in mantissas {
        for exponent in exponents {
            let n = Number::decimal(mantissa, exponent);
            assert_eq!(Number::parse(&n.to_text()), Some(n), "{}", n.to_text());
        }
    }
}

#[test]
fn floats_go_through_their_shortest_decimal() {
    let floats = [
        0.0, 0.5, -0.25, 300.0, 280.0, 0.1, 0.4, 1.0 / 3.0, 123.45, 1e21, 1e-7, 5e-324,
        f64::MAX, f64::MIN_POSITIVE, f64::EPSILON, 9007199254740993.0, -2.5e-10, 6.02214076e23,
    ];
    for x in floats {
        let n = Number::parse(&format!("{:e}", x)).unwrap();
        let read: f64 = n.to_text().parse().unwrap();
        assert_eq!(read, x, "{}", n.to_text());
        let by_json: f64 = serde_json::from_str(&n.to_text()).unwrap();
        assert_eq!(by_json, x, "{}", n.to_text());
    }
    assert_eq!(Number::parse(&format!("{:e}", 0.5f64)), Some(Number::decimal(5, -1)));
    assert_eq!(Number::parse(&format!("{:e}", 300.0f64)), Some(Number::decimal(3, 2)));
    assert_eq!(Number::parse(&format!("{:e}", 123.45f64)), Some(Number::decimal(12345, -2)));
}
