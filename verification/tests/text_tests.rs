use mast_remarkable::text::{
    chars_of, contains_text, decimal_string, ends_with_text, indexed_name, push_signed_decimal,
    same_text,
};

#[test]
fn decimal_of_zero() {
    assert_eq!(decimal_string(0), "0");
}

#[test]
fn decimal_of_several_digits() {
    assert_eq!(decimal_string(305), "305");
    assert_eq!(decimal_string(10), "10");
    assert_eq!(decimal_string(u64::MAX), u64::MAX.to_string());
}

#[test]
fn signed_decimal_of_negatives() {
    let mut s = String::from("t=");
    push_signed_decimal(&mut s, -12);
    assert_eq!(s, "t=-12");
    let mut m = String::new();
    push_signed_decimal(&mut m, i32::MIN);
    assert_eq!(m, i32::MIN.to_string());
}

#[test]
fn indexed_names() {
    assert_eq!(indexed_name(12, "_temp:daily:weather"), "12_temp:daily:weather");
    assert_eq!(indexed_name(0, ":device_icon"), "0:device_icon");
}

#[test]
fn searching_text() {
    assert!(contains_text("abc txpower 3.00 dBm", "txpower"));
    assert!(!contains_text("abc", "abcd"));
    assert!(contains_text("abc", ""));
    assert!(contains_text("温度℃", "℃"));
    assert!(ends_with_text("1_icon:hourly:weather", ":hourly:weather"));
    assert!(!ends_with_text("weather", ":hourly:weather"));
    assert!(same_text("Monday", "Monday"));
    assert!(!same_text("Monday", "Mondays"));
    assert_eq!(chars_of("星期一"), vec!['星', '期', '一']);
}
