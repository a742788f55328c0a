use r1cs_fold::codec::{parse_field_element, serialize_field_element, ParseError};

const M: u64 = 97;

#[test]
fn parse_small_literal() {
    assert_eq!(parse_field_element("12", M), Ok(12));
    assert_eq!(parse_field_element("0", M), Ok(0));
    assert_eq!(parse_field_element("96", M), Ok(96));
}

#[test]
fn parse_reduces_modulo() {
    assert_eq!(parse_field_element("97", M), Ok(0));
    assert_eq!(parse_field_element("123", M), Ok(26));
    assert_eq!(parse_field_element("193", M), Ok(96));
}

#[test]
fn parse_reduces_values_beyond_u64() {
    // 2^64 mod 97 == 61: reduction happens during parsing, so literals larger
    // than the machine word are accepted.
    assert_eq!(parse_field_element("18446744073709551616", M), Ok(61));
}

#[test]
fn parse_rejects_empty() {
    assert_eq!(parse_field_element("", M), Err(ParseError));
}

#[test]
fn parse_rejects_non_digits() {
    assert_eq!(parse_field_element("12a", M), Err(ParseError));
    assert_eq!(parse_field_element("-5", M), Err(ParseError));
    assert_eq!(parse_field_element("+5", M), Err(ParseError));
    assert_eq!(parse_field_element(" 5", M), Err(ParseError));
    assert_eq!(parse_field_element("1 2", M), Err(ParseError));
}

#[test]
fn parse_rejects_leading_zeros() {
    assert_eq!(parse_field_element("007", M), Err(ParseError));
    assert_eq!(parse_field_element("00", M), Err(ParseError));
    assert_eq!(parse_field_element("01", M), Err(ParseError));
}

#[test]
fn serialize_is_canonical_decimal() {
    assert_eq!(serialize_field_element(0), "0");
    assert_eq!(serialize_field_element(5), "5");
    assert_eq!(serialize_field_element(10), "10");
    assert_eq!(serialize_field_element(123), "123");
    assert_eq!(serialize_field_element(u64::MAX), "18446744073709551615");
}

#[test]
fn parse_serialize_round_trip() {
    for x in [0u64, 1, 9, 10, 42, 96] {
        let s = serialize_field_element(x);
        assert_eq!(parse_field_element(&s, M), Ok(x));
    }
    let big: u64 = 0xffffffff00000001;
    let s = serialize_field_element(big - 7);
    assert_eq!(parse_field_element(&s, big), Ok(big - 7));
}
