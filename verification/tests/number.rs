use ws_script::number::JsonNumber;

fn number(positive: bool, mantissa: u64, exponent: i16) -> JsonNumber {
    JsonNumber { positive, mantissa, exponent }
}

#[test]
fn same_parts_are_the_same_value() {
    assert!(number(true, 25, -1).same_value(&number(true, 25, -1)));
    assert!(number(false, 3, 7).same_value(&number(false, 3, 7)));
}

#[test]
fn trailing_zeros_do_not_change_the_value() {
    assert!(number(true, 1, 0).same_value(&number(true, 10, -1)));
    assert!(number(true, 10, -1).same_value(&number(true, 1, 0)));
    assert!(number(true, 1, 2).same_value(&number(true, 100, 0)));
    assert!(number(true, 1000, -3).same_value(&number(true, 1, 0)));
    assert!(number(true, 1, 19).same_value(&number(true, 10_000_000_000_000_000_000, 0)));
}

#[test]
fn different_values_differ() {
    assert!(!number(true, 1, 0).same_value(&number(true, 2, 0)));
    assert!(!number(true, 1, 0).same_value(&number(true, 1, 1)));
    assert!(!number(true, 1, 0).same_value(&number(true, 11, -1)));
    assert!(!number(true, 15, -1).same_value(&number(true, 1, 0)));
}

#[test]
fn sign_matters_except_for_zero() {
    assert!(!number(true, 1, 0).same_value(&number(false, 1, 0)));
    assert!(number(true, 0, 0).same_value(&number(false, 0, 0)));
    assert!(number(true, 0, 5).same_value(&number(false, 0, -5)));
    assert!(!number(true, 0, 0).same_value(&number(true, 1, 0)));
    assert!(!number(false, 1, 0).same_value(&number(false, 0, 0)));
}

#[test]
fn far_apart_exponents_do_not_overflow() {
    assert!(!number(true, 1, i16::MAX).same_value(&number(true, 1, i16::MIN)));
    assert!(!number(true, 1, i16::MIN).same_value(&number(true, 1, i16::MAX)));
    assert!(!number(true, 1, 20).same_value(&number(true, u64::MAX, 0)));
    assert!(!number(true, u64::MAX, 19).same_value(&number(true, u64::MAX, 0)));
    assert!(!number(true, 1844674407370955162, 1).same_value(&number(true, 4, 0)));
    assert!(number(true, 0, i16::MAX).same_value(&number(true, 0, i16::MIN)));
}
