use wuerfel::strings::{decimal_text, push_decimal, same_text};

#[test]
fn decimal_text_writes_numbers_as_to_string_does() {
    let samples = [
        0u64,
        1,
        9,
        10,
        11,
        19,
        20,
        99,
        100,
        101,
        1000,
        65535,
        4294967295,
        4294967296,
        9999999999,
        u64::MAX,
    ];
    for value in samples {
        assert_eq!(decimal_text(value), value.to_string());
    }
    assert_eq!(decimal_text(0), "0");
    assert_eq!(decimal_text(7), "7");
    assert_eq!(decimal_text(20), "20");
    assert_eq!(decimal_text(18446744073709551615), "18446744073709551615");
}

#[test]
fn push_decimal_appends_to_what_is_there() {
    let mut buffer = String::from("Current roll: ");
    push_decimal(&mut buffer, 17);
    assert_eq!(buffer, "Current roll: 17");
    push_decimal(&mut buffer, 0);
    assert_eq!(buffer, "Current roll: 170");
}

#[test]
fn same_text_compares_character_by_character() {
    assert!(same_text("", ""));
    assert!(same_text("D6", "D6"));
    assert!(!same_text("D6", "d6"));
    assert!(!same_text("D6", "D6 "));
    assert!(!same_text("D6", "D"));
    assert!(!same_text("", "D"));
    assert!(same_text("wü", "wü"));
    assert!(!same_text("wü", "wu"));
}
