use owlguard_mcp::detectors::state_machine::{ActionSuggestion, FraudType};
use owlguard_mcp::rules::loader::{
    convert_rule_to_definition, parse_action_suggestion, parse_fraud_type, FraudRuleEntry, FraudStateEntry,
    RuleLoadError, TransitionEntry,
};

#[test]
fn test_parse_action_suggestion() {
    assert_eq!(parse_action_suggestion("none"), ActionSuggestion::NoAction);
    assert_eq!(parse_action_suggestion("monitor"), ActionSuggestion::Monitor);
    assert_eq!(parse_action_suggestion("warn"), ActionSuggestion::Warn);
    assert_eq!(parse_action_suggestion("block"), ActionSuggestion::Block);
}

#[test]
fn unknown_action_means_none() {
    assert_eq!(parse_action_suggestion("Block"), ActionSuggestion::NoAction);
    assert_eq!(parse_action_suggestion(""), ActionSuggestion::NoAction);
}

#[test]
fn test_parse_fraud_type() {
    assert_eq!(parse_fraud_type("F001"), Some(FraudType::Brushing));
    assert_eq!(parse_fraud_type("F010"), Some(FraudType::FlightChange));
    assert_eq!(parse_fraud_type("F999"), None);
}

#[test]
fn fraud_type_ids_round_trip() {
    let kinds = [
        FraudType::Brushing,
        FraudType::Investment,
        FraudType::FakeShopping,
        FraudType::FakeCustomer,
        FraudType::LoanCredit,
        FraudType::FakeLeader,
        FraudType::FakePolice,
        FraudType::Romance,
        FraudType::GameTrade,
        FraudType::FlightChange,
    ];
    for k in kinds {
        assert_eq!(parse_fraud_type(k.id()), Some(k));
    }
    for a in [ActionSuggestion::NoAction, ActionSuggestion::Monitor, ActionSuggestion::Warn, ActionSuggestion::Block] {
        assert_eq!(parse_action_suggestion(a.as_str()), a);
    }
}

#[test]
fn test_convert_rule_to_definition() {
    let entry = FraudRuleEntry {
        fraud_type_id: "F001".into(),
        fraud_type_name: "刷单返利".into(),
        states: vec![FraudStateEntry {
            id: "S0".into(),
            name: "初始".into(),
            risk_score: 0,
            action_suggestion: "none".into(),
            warning_text: String::new(),
        }],
        transitions: vec![],
    };
    let def = convert_rule_to_definition(&entry);
    assert!(def.is_some());
    assert_eq!(def.unwrap().fraud_type, FraudType::Brushing);
}

#[test]
fn convert_keeps_states_and_transitions() {
    let entry = FraudRuleEntry {
        fraud_type_id: "F007".into(),
        fraud_type_name: "冒充公检法".into(),
        states: vec![
            FraudStateEntry {
                id: "S0".into(),
                name: "初始".into(),
                risk_score: 0,
                action_suggestion: "none".into(),
                warning_text: String::new(),
            },
            FraudStateEntry {
                id: "S1".into(),
                name: "身份冒充".into(),
                risk_score: 30,
                action_suggestion: "warn".into(),
                warning_text: "注意".into(),
            },
        ],
        transitions: vec![TransitionEntry {
            from_state: "S0".into(),
            to_state: "S1".into(),
            trigger_keywords: vec!["警官".into(), "公安局".into()],
        }],
    };
    let def = convert_rule_to_definition(&entry).unwrap();
    assert_eq!(def.fraud_type, FraudType::FakePolice);
    assert_eq!(def.states.len(), 2);
    assert_eq!(def.states[1].risk_score, 30);
    assert_eq!(def.states[1].action_suggestion, ActionSuggestion::Warn);
    assert_eq!(def.transitions[0].trigger_keywords, vec!["警官".to_string(), "公安局".to_string()]);

    let unknown = FraudRuleEntry { fraud_type_id: "X".into(), ..entry };
    assert!(convert_rule_to_definition(&unknown).is_none());
}

#[test]
fn load_error_messages() {
    assert_eq!(RuleLoadError::FileNotFound("a.json".into()).message(), "规则文件不存在: a.json");
    assert_eq!(RuleLoadError::ReadError("denied".into()).message(), "规则文件读取失败: denied");
    assert_eq!(RuleLoadError::ParseError("eof".into()).message(), "规则文件解析失败: eof");
}
