use owlguard_mcp::detectors::state_machine::{
    ActionSuggestion, AlertLevel, FraudState, FraudStateMachine, FraudStateMachineDef, FraudType,
    GenericStateMachine, StateTransition,
};

fn state(id: &str, name: &str, risk_score: u32, action: ActionSuggestion, warning: &str) -> FraudState {
    FraudState {
        id: id.into(),
        name: name.into(),
        risk_score,
        action_suggestion: action,
        warning_text: warning.into(),
    }
}

fn edge(from: &str, to: &str, keywords: &[&str]) -> StateTransition {
    StateTransition {
        from_state: from.into(),
        to_state: to.into(),
        trigger_keywords: keywords.iter().map(|k| k.to_string()).collect(),
    }
}

#[test]
fn test_fraud_type_id_and_name() {
    assert_eq!(FraudType::Brushing.id(), "F001");
    assert_eq!(FraudType::Brushing.name(), "刷单返利");
    assert_eq!(FraudType::FlightChange.id(), "F010");
    assert_eq!(FraudType::FlightChange.name(), "机票退改签");
}

#[test]
fn test_alert_level_as_str() {
    assert_eq!(AlertLevel::NoRisk.as_str(), "none");
    assert_eq!(AlertLevel::Critical.as_str(), "critical");
}

#[test]
fn test_action_suggestion_as_str() {
    assert_eq!(ActionSuggestion::Block.as_str(), "block");
}

#[test]
fn test_generic_state_machine_basic() {
    let definition = FraudStateMachineDef {
        fraud_type: FraudType::Brushing,
        states: vec![
            state("S0", "初始", 0, ActionSuggestion::NoAction, ""),
            state("S1", "诱饵抛出", 20, ActionSuggestion::Monitor, "警惕刷单诈骗"),
            state("S2", "信任建立", 40, ActionSuggestion::Warn, "候选词区变色警告"),
        ],
        transitions: vec![
            edge("S0", "S1", &["兼职", "日结", "宝妈可做"]),
            edge("S1", "S2", &["正规平台", "不交押金", "有营业执照"]),
        ],
    };

    let mut sm = GenericStateMachine::new(definition);
    assert_eq!(sm.current_state().id, "S0");
    assert_eq!(sm.risk_score(), 0);

    let transitioned = sm.transition("手机兼职，日结300-500");
    assert!(transitioned);
    assert_eq!(sm.current_state().id, "S1");
    assert_eq!(sm.risk_score(), 20);

    let transitioned = sm.transition("我们是正规平台，有营业执照");
    assert!(transitioned);
    assert_eq!(sm.current_state().id, "S2");
    assert_eq!(sm.risk_score(), 40);
}

#[test]
fn test_state_not_reversible() {
    let definition = FraudStateMachineDef {
        fraud_type: FraudType::Brushing,
        states: vec![
            state("S0", "初始", 0, ActionSuggestion::NoAction, ""),
            state("S1", "诱饵", 20, ActionSuggestion::Monitor, "警告"),
        ],
        transitions: vec![edge("S0", "S1", &["兼职"]), edge("S1", "S0", &["正常对话"])],
    };

    let mut sm = GenericStateMachine::new(definition);
    sm.transition("有兼职吗");
    assert_eq!(sm.current_state().id, "S1");

    let transitioned = sm.transition("正常对话");
    assert!(!transitioned);
    assert_eq!(sm.current_state().id, "S1");
}

#[test]
fn mod_test_reset() {
    let definition = FraudStateMachineDef {
        fraud_type: FraudType::Brushing,
        states: vec![
            state("S0", "初始", 0, ActionSuggestion::NoAction, ""),
            state("S1", "诱饵", 20, ActionSuggestion::Monitor, "警告"),
        ],
        transitions: vec![edge("S0", "S1", &["兼职"])],
    };

    let mut sm = GenericStateMachine::new(definition);
    sm.transition("有兼职吗");
    assert_eq!(sm.current_state().id, "S1");

    sm.reset();
    assert_eq!(sm.current_state().id, "S0");
    assert!(sm.matched_keywords().is_empty());
}

#[test]
fn test_reasoning() {
    let definition = FraudStateMachineDef {
        fraud_type: FraudType::Brushing,
        states: vec![
            state("S0", "初始", 0, ActionSuggestion::NoAction, ""),
            state("S1", "诱饵抛出", 20, ActionSuggestion::Monitor, "警告"),
        ],
        transitions: vec![edge("S0", "S1", &["兼职"])],
    };

    let mut sm = GenericStateMachine::new(definition);
    sm.transition("有兼职吗");
    let reasoning = sm.reasoning();
    assert!(reasoning.contains("刷单返利"));
    assert!(reasoning.contains("S0(初始)"));
    assert!(reasoning.contains("S1(诱饵抛出)"));
}

#[test]
fn reasoning_lists_the_whole_path() {
    let definition = FraudStateMachineDef {
        fraud_type: FraudType::Brushing,
        states: vec![
            state("S0", "初始", 0, ActionSuggestion::NoAction, ""),
            state("S1", "诱饵抛出", 20, ActionSuggestion::Monitor, "警告"),
        ],
        transitions: vec![edge("S0", "S1", &["兼职"])],
    };
    let mut sm = GenericStateMachine::new(definition);
    assert_eq!(sm.reasoning(), "刷单返利话术状态机路径: S0(初始)");
    sm.transition("有兼职吗");
    assert_eq!(sm.reasoning(), "刷单返利话术状态机路径: S0(初始) → S1(诱饵抛出)");
}

#[test]
fn keywords_are_matched_without_regard_to_case() {
    let found = GenericStateMachine::check_keywords_match(
        "扫码下载App",
        &vec!["APP".to_string(), "充值".to_string(), "扫码".to_string()],
    );
    assert_eq!(found, vec!["APP".to_string(), "扫码".to_string()]);
}

#[test]
fn only_forward_transitions_fire_and_the_first_one_wins() {
    let definition = FraudStateMachineDef {
        fraud_type: FraudType::Romance,
        states: vec![
            state("S0", "初始", 0, ActionSuggestion::NoAction, ""),
            state("S1", "一", 30, ActionSuggestion::Monitor, "w1"),
            state("S2", "二", 60, ActionSuggestion::Warn, "w2"),
        ],
        transitions: vec![edge("S0", "S2", &["甲"]), edge("S0", "S1", &["甲"]), edge("S2", "S1", &["乙"])],
    };
    let mut sm = GenericStateMachine::new(definition);
    assert!(sm.transition("甲"));
    assert_eq!(sm.current_state_index(), 2);
    assert_eq!(sm.warning_text(), "w2");
    assert_eq!(sm.action_suggestion(), ActionSuggestion::Warn);
    assert_eq!(sm.fraud_type(), FraudType::Romance);
    assert!(!sm.transition("乙"));
    assert_eq!(sm.current_state_index(), 2);
    assert_eq!(sm.matched_keywords().to_vec(), vec!["甲".to_string()]);
}
