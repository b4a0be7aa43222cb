use pipeaudit::report::Decimal;
use pipeaudit::text::{
    comma_list, decimal_string, divide_half_even, padded3_string, quoted_list, rounded_string,
    same_text, tenths_string,
};

#[test]
fn decimal_numerals() {
    assert_eq!(decimal_string(0), "0");
    assert_eq!(decimal_string(7), "7");
    assert_eq!(decimal_string(10), "10");
    assert_eq!(decimal_string(1500), "1500");
    assert_eq!(decimal_string(u128::MAX), u128::MAX.to_string());
}

#[test]
fn padded_numerals() {
    assert_eq!(padded3_string(0), "000");
    assert_eq!(padded3_string(1), "001");
    assert_eq!(padded3_string(9), "009");
    assert_eq!(padded3_string(10), "010");
    assert_eq!(padded3_string(42), "042");
    assert_eq!(padded3_string(99), "099");
    assert_eq!(padded3_string(100), "100");
    assert_eq!(padded3_string(1000), "1000");
}

#[test]
fn division_rounds_half_to_even() {
    assert_eq!(divide_half_even(0, 4), 0);
    assert_eq!(divide_half_even(1, 4), 0);
    assert_eq!(divide_half_even(2, 4), 0);
    assert_eq!(divide_half_even(3, 4), 1);
    assert_eq!(divide_half_even(6, 4), 2);
    assert_eq!(divide_half_even(10, 4), 2);
    assert_eq!(divide_half_even(14, 4), 4);
    assert_eq!(divide_half_even(7, 2), 4);
    assert_eq!(divide_half_even(5, 2), 2);
    assert_eq!(divide_half_even(5, 1), 5);
    assert_eq!(divide_half_even(u128::MAX, 1), u128::MAX);
    assert_eq!(divide_half_even(u128::MAX, u128::MAX), 1);
    assert_eq!(divide_half_even(u128::MAX - 1, u128::MAX), 1);
    assert_eq!(divide_half_even(1, u128::MAX), 0);
}

#[test]
fn tenths_and_whole_numbers() {
    assert_eq!(tenths_string(0, 100), "0.0");
    assert_eq!(tenths_string(1500, 100), "15.0");
    assert_eq!(tenths_string(1234, 100), "12.3");
    assert_eq!(tenths_string(1235, 100), "12.4");
    assert_eq!(tenths_string(1225, 100), "12.2");
    assert_eq!(tenths_string(1296, 100), "13.0");
    assert_eq!(tenths_string(999, 100), "10.0");
    assert_eq!(tenths_string(1, 3), "0.3");
    assert_eq!(tenths_string(2, 3), "0.7");
    assert_eq!(tenths_string(15_000_000_000, 1_073_741_824), "14.0");
    assert_eq!(tenths_string(u64::MAX, 1), "18446744073709551615.0");
    assert_eq!(rounded_string(0, 100), "0");
    assert_eq!(rounded_string(49, 100), "0");
    assert_eq!(rounded_string(50, 100), "0");
    assert_eq!(rounded_string(51, 100), "1");
    assert_eq!(rounded_string(150, 100), "2");
    assert_eq!(rounded_string(250, 100), "2");
    assert_eq!(rounded_string(720_000, 100), "7200");
}

#[test]
fn decimal_quantities() {
    let q = Decimal::from_hundredths(1234);
    assert_eq!(q.hundredths, 1234);
    assert_eq!(q.to_tenths_string(), "12.3");
    assert_eq!(q.to_rounded_string(), "12");
    assert!(q.is_above(12));
    assert!(!q.is_above(13));
    assert!(q.is_below(13));
    assert!(!q.is_below(12));
    let whole = Decimal::from_hundredths(2000);
    assert!(!whole.is_above(20));
    assert!(!whole.is_below(20));
    assert_eq!(Decimal::default(), Decimal::from_hundredths(0));
    assert!(Decimal::from_hundredths(u64::MAX).is_above(u32::MAX));
}

#[test]
fn lists() {
    let none: Vec<String> = vec![];
    let one = vec!["a".to_string()];
    let three = vec!["a".to_string(), "b c".to_string(), "".to_string()];
    assert_eq!(quoted_list(&none), "");
    assert_eq!(quoted_list(&one), "'a'");
    assert_eq!(quoted_list(&three), "'a', 'b c', ''");
    assert_eq!(comma_list(&none), "");
    assert_eq!(comma_list(&one), "a");
    assert_eq!(comma_list(&three), "a, b c, ");
}

#[test]
fn texts_are_compared_by_their_characters() {
    assert!(same_text("", ""));
    assert!(same_text("db.t", "db.t"));
    assert!(!same_text("db.t", "db.T"));
    assert!(!same_text("db.t", "db.t "));
}
