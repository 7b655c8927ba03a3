use purchase_json::text::{decimal_text, signed_decimal_text};

#[test]
fn decimal_text_of_small_numbers() {
    assert_eq!(decimal_text(0), "0");
    assert_eq!(decimal_text(7), "7");
    assert_eq!(decimal_text(9), "9");
    assert_eq!(decimal_text(10), "10");
    assert_eq!(decimal_text(11), "11");
    assert_eq!(decimal_text(109), "109");
    assert_eq!(decimal_text(1234567890), "1234567890");
}

#[test]
fn decimal_text_of_the_largest_number() {
    assert_eq!(decimal_text(u64::MAX), "18446744073709551615");
}

#[test]
fn decimal_text_agrees_with_the_standard_library() {
    let mut n: u64 = 1;
    for step in 0u64..200 {
        assert_eq!(decimal_text(n), n.to_string());
        n = n.wrapping_mul(6364136223846793005).wrapping_add(step);
    }
}

#[test]
fn signed_decimal_text_writes_the_sign() {
    assert_eq!(signed_decimal_text(0), "0");
    assert_eq!(signed_decimal_text(42), "42");
    assert_eq!(signed_decimal_text(-1), "-1");
    assert_eq!(signed_decimal_text(-120), "-120");
    assert_eq!(signed_decimal_text(i64::MAX), "9223372036854775807");
    assert_eq!(signed_decimal_text(i64::MIN), "-9223372036854775808");
}
