use shooter_core::text::{decimal, starts_with};

#[test]
fn decimal_text_of_numbers() {
    assert_eq!(decimal(0), "0");
    assert_eq!(decimal(7), "7");
    assert_eq!(decimal(10), "10");
    assert_eq!(decimal(905), "905");
    assert_eq!(decimal(u32::MAX), "4294967295");
}

#[test]
fn prefix_of_a_name() {
    assert!(starts_with("Medkit.001", "Medkit"));
    assert!(starts_with("Medkit", "Medkit"));
    assert!(starts_with("Medkit", ""));
    assert!(!starts_with("Medki", "Medkit"));
    assert!(!starts_with("medkit", "Medkit"));
    assert!(!starts_with("", "M"));
    assert!(starts_with("Türöffner", "Tür"));
}
