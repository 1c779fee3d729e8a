use owlguard_mcp::utils::idcard::{is_valid_date, validate, validate_with_date};

#[test]
fn test_valid_id_numbers() {
    assert!(validate("11010519491231002X"));
    assert!(validate("110105199507166012"));
    assert!(validate("440308199901010514"));
    assert!(validate("320311199001010018"));
}

#[test]
fn test_invalid_check_digit() {
    assert!(!validate("110105194912310021"));
    assert!(!validate("110105199507166013"));
    assert!(!validate("440308199901010511"));
}

#[test]
fn test_format_errors() {
    assert!(!validate("1101051949123100"));
    assert!(!validate("11010519491231002X1"));
    assert!(!validate(""));
    assert!(!validate("11010519491231002Y"));
}

#[test]
fn test_non_digit_in_body() {
    assert!(!validate("11010X19491231002X"));
    assert!(!validate("A1010519491231002X"));
}

#[test]
fn test_lowercase_x() {
    assert!(validate("11010519491231002x"));
    assert!(!validate("44030819990101051x"));
}

#[test]
fn test_date_validation() {
    assert!(validate_with_date("11010519491231002X"));
    assert!(validate_with_date("110105199507166012"));
    assert!(!validate_with_date("110105194902290010"));
    assert!(!validate_with_date("110105194913310013"));
}

#[test]
fn test_is_valid_date() {
    assert!(is_valid_date(2000, 2, 29));
    assert!(!is_valid_date(1900, 2, 29));
    assert!(is_valid_date(2024, 2, 29));
    assert!(!is_valid_date(2023, 2, 29));
    assert!(is_valid_date(2023, 1, 31));
    assert!(!is_valid_date(2023, 4, 31));
    assert!(!is_valid_date(2023, 13, 1));
    assert!(!is_valid_date(2023, 0, 1));
}

#[test]
fn date_check_bounds() {
    assert!(!is_valid_date(1899, 12, 31));
    assert!(is_valid_date(2100, 12, 31));
    assert!(!is_valid_date(2101, 1, 1));
    assert!(!is_valid_date(2023, 6, 0));
    assert!(is_valid_date(2023, 6, 30));
}

#[test]
fn date_check_is_stricter() {
    for id in ["11010519491231002X", "110105194902290010", "110105194913310013", "12345"] {
        if validate_with_date(id) {
            assert!(validate(id));
        }
    }
}
