use dodolang::numbers::parse_i128;
use dodolang::numbers::parse_usize;
use dodolang::numbers::to_decimal;

#[test]
fn parses_digit_runs() {
    assert_eq!(parse_i128("0"), Some(0));
    assert_eq!(parse_i128("00042"), Some(42));
    assert_eq!(
        parse_i128("170141183460469231731687303715884105727"),
        Some(i128::MAX)
    );
}

#[test]
fn rejects_empty_signed_and_oversized_text() {
    assert_eq!(parse_i128(""), None);
    assert_eq!(parse_i128("-1"), None);
    assert_eq!(parse_i128("1a"), None);
    assert_eq!(parse_i128("170141183460469231731687303715884105728"), None);
    assert_eq!(parse_usize("18446744073709551615"), Some(usize::MAX));
    assert_eq!(parse_usize("18446744073709551616"), None);
}

#[test]
fn renders_decimal_text() {
    assert_eq!(to_decimal(0), "0");
    assert_eq!(to_decimal(132), "132");
    assert_eq!(to_decimal(-7), "-7");
    assert_eq!(
        to_decimal(i128::MIN),
        "-170141183460469231731687303715884105728"
    );
    assert_eq!(
        to_decimal(i128::MAX),
        "170141183460469231731687303715884105727"
    );
}
