use owlguard_mcp::detectors::sensitive::{findings_in, SensitiveDetector, SensitiveType};

#[test]
fn test_detect_bank_card() {
    let detector = SensitiveDetector::new().unwrap();
    let results = detector.detect("卡号6222021234567894请转账").unwrap();
    let bank_cards: Vec<_> = results.iter().filter(|r| r.sensitive_type == SensitiveType::BankCard).collect();
    assert!(!bank_cards.is_empty());
}

#[test]
fn test_detect_id_card() {
    let detector = SensitiveDetector::new().unwrap();
    let results = detector.detect("身份证号11010519491231002X").unwrap();
    let id_cards: Vec<_> = results.iter().filter(|r| r.sensitive_type == SensitiveType::IdCard).collect();
    assert!(!id_cards.is_empty());
}

#[test]
fn test_detect_verification_code() {
    let detector = SensitiveDetector::new().unwrap();
    let results = detector.detect("验证码是123456，请输入").unwrap();
    let codes: Vec<_> = results.iter().filter(|r| r.sensitive_type == SensitiveType::VerificationCode).collect();
    assert!(!codes.is_empty());
}

#[test]
fn test_no_verification_code_without_context() {
    let detector = SensitiveDetector::new().unwrap();
    let results = detector.detect("数量是123456个").unwrap();
    let codes: Vec<_> = results.iter().filter(|r| r.sensitive_type == SensitiveType::VerificationCode).collect();
    assert!(codes.is_empty());
}

#[test]
fn test_detect_pay_password() {
    let detector = SensitiveDetector::new().unwrap();
    let results = detector.detect("转账密码123456").unwrap();
    let passwords: Vec<_> = results.iter().filter(|r| r.sensitive_type == SensitiveType::PayPassword).collect();
    assert!(!passwords.is_empty());
}

#[test]
fn test_mask_value() {
    assert_eq!(SensitiveDetector::mask_value("1234567890", 3, 2), "123*****90");
    assert_eq!(SensitiveDetector::mask_value("12345", 2, 2), "12*45");
}

#[test]
fn test_no_false_positive_on_short_numbers() {
    let detector = SensitiveDetector::new().unwrap();
    let results = detector.detect("价格是1234元").unwrap();
    let bank_cards: Vec<_> = results.iter().filter(|r| r.sensitive_type == SensitiveType::BankCard).collect();
    assert!(bank_cards.is_empty());
}

#[test]
fn bank_card_is_masked_and_positioned() {
    let detector = SensitiveDetector::new().unwrap();
    let results = detector.detect("卡号6222021234567894").unwrap();
    assert_eq!(results.len(), 1);
    assert_eq!(results[0].sensitive_type, SensitiveType::BankCard);
    assert_eq!(results[0].value, "6222********7894");
    assert_eq!(results[0].position, "卡号".len());
}

#[test]
fn card_number_failing_luhn_is_not_reported() {
    let detector = SensitiveDetector::new().unwrap();
    let results = detector.detect("卡号6222021234567895").unwrap();
    assert!(results.iter().all(|r| r.sensitive_type != SensitiveType::BankCard));
}

#[test]
fn text_is_cleaned_before_detection() {
    let detector = SensitiveDetector::new().unwrap();
    let results = detector.detect("验证码是１２３４５６").unwrap();
    assert_eq!(results.len(), 1);
    assert_eq!(results[0].sensitive_type, SensitiveType::VerificationCode);
    assert_eq!(results[0].value, "******");
}

#[test]
fn code_near_payment_words_is_a_password_too() {
    let detector = SensitiveDetector::new().unwrap();
    let results = detector.detect("支付验证码654321").unwrap();
    let kinds: Vec<SensitiveType> = results.iter().map(|r| r.sensitive_type).collect();
    assert_eq!(kinds, vec![SensitiveType::VerificationCode]);
}

#[test]
fn findings_from_given_spans() {
    let text = "验证码123456";
    let start = "验证码".len();
    let results = findings_in(
        text,
        &vec![],
        &vec![],
        &vec![(start, start + 6)],
        &vec!["验证码".to_string()],
        &vec!["转账".to_string()],
    )
    .unwrap();
    assert_eq!(results.len(), 1);
    assert_eq!(results[0].sensitive_type, SensitiveType::VerificationCode);
    assert_eq!(results[0].position, start);
}

#[test]
fn window_cut_inside_a_character_is_refused() {
    // The window starts 30 bytes before the candidate: here, inside a character.
    let text = "一二三四五六七八九十壹a123456";
    let start = text.find("123456").unwrap();
    assert_eq!(start, 34);
    let results = findings_in(text, &vec![], &vec![], &vec![(start, start + 6)], &vec![], &vec![]);
    assert!(results.is_none());
}
