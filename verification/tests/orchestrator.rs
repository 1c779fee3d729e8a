use owlguard_mcp::detectors::orchestrator::ScanOrchestrator;
use owlguard_mcp::mcp::tools::{rules_version, ChatMessage};

fn conversation(messages: Vec<(&str, &str)>) -> Vec<ChatMessage> {
    messages
        .into_iter()
        .map(|(role, content)| ChatMessage { role: role.to_string(), content: content.to_string() })
        .collect()
}

#[test]
fn orchestrator_test_scan_normal_conversation() {
    let orchestrator = ScanOrchestrator::new().unwrap();
    let messages = vec![ChatMessage { role: "user".into(), content: "今天天气真好".into() }];
    let result = orchestrator.scan_conversation(&messages).unwrap();
    assert_eq!(result.risk_level, "none");
    assert_eq!(result.risk_score, 0);
}

#[test]
fn test_scan_brushing_fraud() {
    let orchestrator = ScanOrchestrator::new().unwrap();
    let messages = vec![
        ChatMessage { role: "other".into(), content: "手机兼职，日结300-500".into() },
        ChatMessage { role: "other".into(), content: "我们是正规平台，不交押金".into() },
        ChatMessage { role: "other".into(), content: "先做一单试试，马上返你".into() },
        ChatMessage { role: "other".into(), content: "这单佣金高，需要垫付".into() },
    ];
    let result = orchestrator.scan_conversation(&messages).unwrap();
    assert!(result.risk_score >= 80);
    assert_eq!(result.fraud_type, Some("刷单返利".to_string()));
    assert_eq!(result.action_suggestion, "block");
}

#[test]
fn test_scan_with_sensitive_info() {
    let orchestrator = ScanOrchestrator::new().unwrap();
    let messages = vec![ChatMessage { role: "other".into(), content: "请提供银行卡号6222021234567894".into() }];
    let result = orchestrator.scan_conversation(&messages).unwrap();
    assert!(result.risk_score > 0);
}

#[test]
fn test_detect_sensitive_bank_card() {
    let orchestrator = ScanOrchestrator::new().unwrap();
    let result = orchestrator.detect_sensitive("卡号6222021234567894").unwrap();
    assert!(result.found);
}

#[test]
fn orchestrator_test_check_malicious_url() {
    let orchestrator = ScanOrchestrator::new().unwrap();
    let result = orchestrator.check_url("https://fake-invest.com");
    assert!(result.is_malicious);
}

#[test]
fn orchestrator_test_check_safe_app() {
    let orchestrator = ScanOrchestrator::new().unwrap();
    let result = orchestrator.check_app("微信");
    assert!(!result.is_dangerous);
}

#[test]
fn integration_test_test_scan_normal_conversation() {
    let orchestrator = ScanOrchestrator::new().unwrap();
    let result = orchestrator
        .scan_conversation(&conversation(vec![("user", "今天天气真好"), ("other", "是啊，出去走走吧")]))
        .unwrap();
    assert_eq!(result.risk_level, "none");
    assert_eq!(result.risk_score, 0);
}

#[test]
fn test_scan_brushing_fraud_full_chain() {
    let orchestrator = ScanOrchestrator::new().unwrap();
    let result = orchestrator
        .scan_conversation(&conversation(vec![
            ("other", "手机兼职，日结300-500"),
            ("other", "我们是正规平台，不交押金"),
            ("other", "先做一单试试，马上返你"),
            ("other", "这单佣金高，需要垫付"),
            ("other", "系统卡单了，需要补单才能提现"),
        ]))
        .unwrap();
    assert!(result.risk_score >= 100);
    assert_eq!(result.fraud_type, Some("刷单返利".to_string()));
    assert_eq!(result.action_suggestion, "block");
}

#[test]
fn test_scan_investment_fraud() {
    let orchestrator = ScanOrchestrator::new().unwrap();
    let result = orchestrator
        .scan_conversation(&conversation(vec![
            ("other", "加群交流，老师分析股票"),
            ("other", "有内幕消息，跟着机构操作"),
            ("other", "今天又赚了5万"),
            ("other", "扫码下载APP"),
            ("other", "赶紧入金充值"),
        ]))
        .unwrap();
    assert!(result.risk_score >= 80);
    assert_eq!(result.fraud_type, Some("虚假投资理财".to_string()));
}

#[test]
fn test_scan_fake_police_fraud() {
    let orchestrator = ScanOrchestrator::new().unwrap();
    let result = orchestrator
        .scan_conversation(&conversation(vec![
            ("other", "我是公安局XX警官"),
            ("other", "你涉嫌洗钱，已有通缉令"),
            ("other", "保密，不要告诉家人"),
            ("other", "把钱转入安全账户进行资金核查"),
        ]))
        .unwrap();
    assert!(result.risk_score >= 80);
    assert_eq!(result.fraud_type, Some("冒充公检法".to_string()));
}

#[test]
fn test_scan_romance_fraud() {
    let orchestrator = ScanOrchestrator::new().unwrap();
    let result = orchestrator
        .scan_conversation(&conversation(vec![
            ("other", "你好，认识一下"),
            ("other", "亲爱的，想你了"),
            ("other", "我是军人，驻扎海外"),
            ("other", "我发现平台漏洞，带你赚钱"),
            ("other", "今天又赚了5万，截图给你看"),
            ("other", "下载APP充值跟投"),
            ("other", "账户冻结了，再充一笔"),
        ]))
        .unwrap();
    assert!(result.risk_score >= 100);
    assert_eq!(result.fraud_type, Some("婚恋交友(杀猪盘)".to_string()));
}

#[test]
fn test_detect_sensitive_info() {
    let orchestrator = ScanOrchestrator::new().unwrap();
    let result = orchestrator.detect_sensitive("验证码是123456，请输入").unwrap();
    assert!(result.found);
}

#[test]
fn integration_test_test_check_malicious_url() {
    let orchestrator = ScanOrchestrator::new().unwrap();
    assert!(orchestrator.check_url("https://fake-invest.com/download").is_malicious);
}

#[test]
fn integration_test_test_check_safe_app() {
    let orchestrator = ScanOrchestrator::new().unwrap();
    assert!(!orchestrator.check_app("微信").is_dangerous);
}

#[test]
fn test_get_rules_version() {
    let result = rules_version();
    assert_eq!(result.version, "0.1.0");
    assert_eq!(result.update_notes, "MVP版本：10类诈骗话术状态机 + 敏感信息检测");
}

#[test]
fn test_batch_scan() {
    let orchestrator = ScanOrchestrator::new().unwrap();
    let conversations = vec![
        conversation(vec![("user", "今天天气真好")]),
        conversation(vec![("other", "手机兼职日结300"), ("other", "需要垫付")]),
    ];
    let results: Vec<_> = conversations.iter().map(|c| orchestrator.scan_conversation(c).unwrap()).collect();
    assert_eq!(results.len(), 2);
    assert_eq!(results[0].risk_level, "none");
    assert!(results[1].risk_score > 0);
}

#[test]
fn test_scan_with_context_hint() {
    let orchestrator = ScanOrchestrator::new().unwrap();
    let result = orchestrator
        .scan_conversation(&conversation(vec![("other", "请提供银行卡号6222021234567894")]))
        .unwrap();
    assert!(result.risk_score > 0);
}

#[test]
fn scan_reports_the_whole_verdict() {
    let orchestrator = ScanOrchestrator::new().unwrap();
    let result = orchestrator
        .scan_conversation(&conversation(vec![("other", "手机兼职，日结300-500"), ("other", "我们是正规平台")]))
        .unwrap();
    assert_eq!(result.risk_score, 40);
    assert_eq!(result.risk_level, "medium");
    assert_eq!(result.action_suggestion, "warn");
    assert_eq!(result.fraud_type_id, Some("F001".to_string()));
    assert_eq!(result.current_state, Some("信任建立".to_string()));
    assert_eq!(result.matched_keywords, vec!["兼职".to_string(), "日结".to_string(), "正规平台".to_string()]);
    assert_eq!(result.reasoning, Some("刷单返利话术状态机路径: S0(初始) → S1(诱饵抛出) → S2(信任建立)".to_string()));
}

#[test]
fn quiet_conversation_has_no_state() {
    let orchestrator = ScanOrchestrator::new().unwrap();
    let result = orchestrator.scan_conversation(&conversation(vec![])).unwrap();
    assert_eq!(result.risk_score, 0);
    assert_eq!(result.fraud_type, None);
    assert_eq!(result.current_state, None);
    assert_eq!(result.action_suggestion, "none");
    assert_eq!(result.reasoning, Some("未检测到风险".to_string()));
}

#[test]
fn sensitive_items_are_reported_with_kind_names() {
    let orchestrator = ScanOrchestrator::new().unwrap();
    let result = orchestrator.detect_sensitive("验证码是123456").unwrap();
    assert_eq!(result.sensitive_items.len(), 1);
    assert_eq!(result.sensitive_items[0].sensitive_type, "verification_code");
    assert_eq!(result.sensitive_items[0].value, "******");
    assert_eq!(result.sensitive_items[0].position, "验证码是".len());
    let none = orchestrator.detect_sensitive("你好").unwrap();
    assert!(!none.found);
}

#[test]
fn url_and_app_answers() {
    let orchestrator = ScanOrchestrator::new().unwrap();
    let url = orchestrator.check_url("https://www.baidu.com");
    assert!(!url.is_malicious);
    assert_eq!(url.threat_type, None);
    assert_eq!(url.source, "local_blacklist");
    let app = orchestrator.check_app("刷单神器");
    assert!(app.is_dangerous);
    assert_eq!(app.risk_reason, Some("fraud_app".to_string()));
}
