use owlguard_mcp::detectors::risk_scorer::RiskScorer;
use owlguard_mcp::detectors::sensitive::{SensitiveInfo, SensitiveType};
use owlguard_mcp::detectors::state_machine::{ActionSuggestion, AlertLevel, FraudType};

fn item(kind: SensitiveType, value: &str) -> SensitiveInfo {
    SensitiveInfo { sensitive_type: kind, value: value.into(), position: 0 }
}

#[test]
fn test_fraud_high_plus_verification_code_is_critical() {
    let result = RiskScorer::assess(
        60,
        Some(FraudType::Brushing),
        ActionSuggestion::Warn,
        "警告".into(),
        &[item(SensitiveType::VerificationCode, "******")],
        "刷单返利话术状态机路径: S0 → S3".into(),
    );
    assert_eq!(result.risk_level, AlertLevel::Critical);
    assert_eq!(result.action_suggestion, ActionSuggestion::Block);
    assert!(result.risk_score > 80);
}

#[test]
fn test_fraud_medium_plus_bank_card_is_high() {
    let result = RiskScorer::assess(
        40,
        Some(FraudType::LoanCredit),
        ActionSuggestion::Warn,
        "警告".into(),
        &[item(SensitiveType::BankCard, "6222****0123")],
        "贷款征信话术状态机路径: S0 → S2".into(),
    );
    assert_eq!(result.risk_level, AlertLevel::High);
    assert_eq!(result.action_suggestion, ActionSuggestion::Block);
}

#[test]
fn test_fraud_medium_plus_id_card_is_high() {
    let result = RiskScorer::assess(
        40,
        Some(FraudType::FakePolice),
        ActionSuggestion::Warn,
        "警告".into(),
        &[item(SensitiveType::IdCard, "110***********002X")],
        "冒充公检法话术状态机路径: S0 → S2".into(),
    );
    assert_eq!(result.risk_level, AlertLevel::High);
}

#[test]
fn test_sensitive_only_without_fraud_is_medium() {
    let result = RiskScorer::assess(
        0,
        None,
        ActionSuggestion::NoAction,
        String::new(),
        &[item(SensitiveType::BankCard, "6222****0123")],
        String::new(),
    );
    assert_eq!(result.risk_level, AlertLevel::Medium);
    assert_eq!(result.action_suggestion, ActionSuggestion::Warn);
}

#[test]
fn test_no_risk() {
    let result = RiskScorer::assess(0, None, ActionSuggestion::NoAction, String::new(), &[], String::new());
    assert_eq!(result.risk_level, AlertLevel::NoRisk);
    assert_eq!(result.action_suggestion, ActionSuggestion::NoAction);
}

#[test]
fn test_fraud_only_high_risk() {
    let result = RiskScorer::assess(
        70,
        Some(FraudType::Investment),
        ActionSuggestion::Warn,
        "浮层警告".into(),
        &[],
        "投资理财话术状态机路径: S0 → S3".into(),
    );
    assert_eq!(result.risk_level, AlertLevel::Medium);
    assert_eq!(result.action_suggestion, ActionSuggestion::Warn);
}

#[test]
fn test_fraud_low_risk() {
    let result = RiskScorer::assess(
        20,
        Some(FraudType::Brushing),
        ActionSuggestion::Monitor,
        "轻提示".into(),
        &[],
        "刷单返利话术状态机路径: S0 → S1".into(),
    );
    assert_eq!(result.risk_level, AlertLevel::Low);
    assert_eq!(result.action_suggestion, ActionSuggestion::Monitor);
}

#[test]
fn critical_verdict_wording_and_score() {
    let result = RiskScorer::assess(
        90,
        Some(FraudType::Brushing),
        ActionSuggestion::Block,
        "w".into(),
        &[item(SensitiveType::PayPassword, "******")],
        "r".into(),
    );
    assert_eq!(result.risk_score, 100);
    assert_eq!(
        result.warning_text,
        "⚠️ 极度危险：检测到刷单返利话术且对方索要支付密码，这是诈骗最后阶段！立即停止对话，拨打96110！"
    );
    assert_eq!(result.reasoning, "r；检测到敏感信息: pay_password");
}

#[test]
fn high_verdict_raises_the_score() {
    let bank = RiskScorer::assess(40, None, ActionSuggestion::Warn, "w".into(), &[item(SensitiveType::BankCard, "x")], String::new());
    assert_eq!(bank.risk_score, 60);
    assert_eq!(
        bank.warning_text,
        "🔴 高危：检测到未知话术且对方索要银行卡号，极可能是诈骗！切勿继续提供信息，拨打96110求助"
    );
    assert_eq!(bank.reasoning, "检测到敏感信息: bank_card");
    let id = RiskScorer::assess(40, None, ActionSuggestion::Warn, "w".into(), &[item(SensitiveType::IdCard, "x")], String::new());
    assert_eq!(id.risk_score, 55);
}

#[test]
fn script_advice_decides_above_point_six() {
    let blocked = RiskScorer::assess(80, Some(FraudType::Romance), ActionSuggestion::Block, "stop".into(), &[], "r".into());
    assert_eq!(blocked.risk_level, AlertLevel::High);
    assert_eq!(blocked.action_suggestion, ActionSuggestion::Block);
    assert_eq!(blocked.warning_text, "stop");
    assert_eq!(blocked.risk_score, 80);
    assert_eq!(blocked.reasoning, "r");
}

#[test]
fn no_risk_reasoning() {
    let result = RiskScorer::assess(5, None, ActionSuggestion::Monitor, "w".into(), &[], String::new());
    assert_eq!(result.risk_level, AlertLevel::NoRisk);
    assert_eq!(result.risk_score, 5);
    assert_eq!(result.warning_text, "");
    assert_eq!(result.reasoning, "未检测到风险");
}

#[test]
fn script_past_point_three_is_a_medium_warning() {
    let result = RiskScorer::assess(
        40,
        Some(FraudType::Brushing),
        ActionSuggestion::Warn,
        "候选词区变色警告".into(),
        &[],
        "刷单返利话术状态机路径: S0 → S2".into(),
    );
    assert_eq!(result.risk_level, AlertLevel::Medium);
    assert_eq!(result.action_suggestion, ActionSuggestion::Warn);
    assert_eq!(result.risk_score, 40);
    assert_eq!(result.warning_text, "候选词区变色警告");
}

#[test]
fn low_tier_is_monitored_whatever_the_script_advises() {
    let result = RiskScorer::assess(30, Some(FraudType::Brushing), ActionSuggestion::Warn, "w".into(), &[], "r".into());
    assert_eq!(result.risk_level, AlertLevel::Low);
    assert_eq!(result.action_suggestion, ActionSuggestion::Monitor);
}
