use owlguard_mcp::utils::luhn::validate;

#[test]
fn test_valid_card_numbers() {
    assert!(validate("6222021234567894"));
    assert!(validate("6228480402564890018"));
    assert!(validate("6222021234567890128"));
}

#[test]
fn test_invalid_card_numbers() {
    assert!(!validate("6222021234567895"));
    assert!(!validate("6228480402564890019"));
    assert!(!validate("6222021234567890129"));
    assert!(!validate("0000000000000000"));
}

#[test]
fn test_length_validation() {
    assert!(!validate("123456789012345"));
    assert!(!validate("12345678901234567890"));
    assert!(!validate(""));
    assert!(!validate("1234567"));
}

#[test]
fn test_non_digit_input() {
    assert!(validate("6222-0212-3456-7894"));
    assert!(validate("6222 0212 3456 7894"));
    assert!(!validate("abcdefghijklmnop"));
    assert!(!validate("6222-0212-3456-7895"));
}

#[test]
fn separators_change_nothing() {
    for number in ["6222021234567894", "6222021234567895", "0000000000000000", "123"] {
        let spaced: String = number.chars().flat_map(|c| [c, ' ']).collect();
        assert_eq!(validate(number), validate(&spaced));
    }
}
