use crabgrab::text::{decimal_string, hex_string, signed_decimal_string};

#[test]
fn decimal_text_of_numbers() {
    assert_eq!(decimal_string(0), "0");
    assert_eq!(decimal_string(1234567890), "1234567890");
    assert_eq!(decimal_string(u64::MAX), "18446744073709551615");
    assert_eq!(signed_decimal_string(-42), "-42");
    assert_eq!(signed_decimal_string(i64::MIN), "-9223372036854775808");
}

#[test]
fn hex_text_is_zero_padded_upper_case() {
    assert_eq!(hex_string(0xbeef, 16), "000000000000BEEF");
    assert_eq!(hex_string(u64::MAX, 16), "FFFFFFFFFFFFFFFF");
    assert_eq!(hex_string(0x1234, 2), "34");
}
