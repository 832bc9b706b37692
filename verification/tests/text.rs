use headset_battery_indicator::text::{decimal_string, int_string, text_eq};

#[test]
fn decimals() {
    assert_eq!(decimal_string(0), "0");
    assert_eq!(decimal_string(7), "7");
    assert_eq!(decimal_string(10), "10");
    assert_eq!(decimal_string(1234567890), "1234567890");
    assert_eq!(decimal_string(u64::MAX), u64::MAX.to_string());
}

#[test]
fn signed_decimals() {
    assert_eq!(int_string(0), "0");
    assert_eq!(int_string(-1), "-1");
    assert_eq!(int_string(100), "100");
    assert_eq!(int_string(isize::MIN), isize::MIN.to_string());
    assert_eq!(int_string(isize::MAX), isize::MAX.to_string());
}

#[test]
fn equality_of_texts() {
    assert!(text_eq("de-AT", "de-AT"));
    assert!(!text_eq("de-AT", "de-at"));
    assert!(!text_eq("de", "de-AT"));
    assert!(text_eq("", ""));
}
