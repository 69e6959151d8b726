use gift_cards::validation::{
    format_money, format_phone_for_display, validate_amount, validate_expiration_days,
    validate_name, validate_phone,
};

#[test]
fn test_phone_validation() {
    assert!(validate_phone("1234567890"));
    assert!(validate_phone("+11234567890"));
    assert!(!validate_phone("123"));
    assert!(!validate_phone("not-a-phone"));
}

#[test]
fn test_name_validation() {
    assert!(validate_name("John Doe"));
    assert!(validate_name("Mary-Jane O'Connor"));
    assert!(!validate_name("a"));
    assert!(!validate_name("Name with 123"));
}

#[test]
fn test_amount_validation() {
    assert!(validate_amount(100));
    assert!(validate_amount(999999));
    assert!(!validate_amount(0));
    assert!(!validate_amount(-100));
    assert!(!validate_amount(1000001));
}

#[test]
fn phone_length_bounds() {
    assert!(validate_phone("123456789012345"));
    assert!(!validate_phone("1234567890123456"));
    assert!(!validate_phone("123456789"));
    assert!(!validate_phone("++1234567890"));
}

#[test]
fn amount_limit_is_inclusive() {
    assert!(validate_amount(1_000_000));
    assert!(validate_amount(1));
}

#[test]
fn expiration_days_bounds() {
    assert!(validate_expiration_days(1));
    assert!(validate_expiration_days(1825));
    assert!(!validate_expiration_days(0));
    assert!(!validate_expiration_days(-3));
    assert!(!validate_expiration_days(1826));
}

#[test]
fn phone_display_ten_digits() {
    assert_eq!(format_phone_for_display("1234567890"), "(123) 456-7890");
    assert_eq!(format_phone_for_display("123-456-7890"), "(123) 456-7890");
}

#[test]
fn phone_display_eleven_digits() {
    assert_eq!(format_phone_for_display("+1 555 123 4567"), "+1 (555) 123-4567");
    assert_eq!(format_phone_for_display("25551234567"), "25551234567");
}

#[test]
fn phone_display_other_lengths_unchanged() {
    assert_eq!(format_phone_for_display("123"), "123");
    assert_eq!(format_phone_for_display(""), "");
    assert_eq!(format_phone_for_display("+44 20 7946 0958 12"), "+44 20 7946 0958 12");
}

#[test]
fn money_formatting() {
    assert_eq!(format_money(5000), "$50.00");
    assert_eq!(format_money(123456), "$1234.56");
    assert_eq!(format_money(5), "$0.05");
    assert_eq!(format_money(0), "$0.00");
    assert_eq!(format_money(-150), "$-1.50");
    assert_eq!(format_money(i32::MIN), "$-21474836.48");
    assert_eq!(format_money(i32::MAX), "$21474836.47");
}
