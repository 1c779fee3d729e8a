use owlguard_mcp::detectors::threat_intel::ThreatIntelChecker;

#[test]
fn threat_intel_test_check_malicious_url() {
    let checker = ThreatIntelChecker::new();
    let result = checker.check_url("https://fake-invest.com/download");
    assert!(result.is_malicious);
    assert_eq!(result.threat_type, Some("phishing".into()));
}

#[test]
fn test_check_safe_url() {
    let checker = ThreatIntelChecker::new();
    let result = checker.check_url("https://www.baidu.com");
    assert!(!result.is_malicious);
}

#[test]
fn test_check_dangerous_app() {
    let checker = ThreatIntelChecker::new();
    let result = checker.check_app("fake invest pro");
    assert!(result.is_malicious);
}

#[test]
fn threat_intel_test_check_safe_app() {
    let checker = ThreatIntelChecker::new();
    let result = checker.check_app("微信");
    assert!(!result.is_malicious);
}

#[test]
fn test_extract_domain() {
    assert_eq!(ThreatIntelChecker::extract_domain("https://example.com/path"), Some("example.com".into()));
    assert_eq!(ThreatIntelChecker::extract_domain("http://test.cn:8080/api"), Some("test.cn".into()));
}

#[test]
fn listed_url_is_found_in_any_case() {
    let checker = ThreatIntelChecker::new();
    let result = checker.check_url("HTTPS://Fake-Invest.COM/x");
    assert!(result.is_malicious);
    assert_eq!(result.source, "local_blacklist");
    let app = checker.check_app("Fake Invest PRO");
    assert!(app.is_malicious);
    assert_eq!(app.threat_type, Some("fraud_app".into()));
}

#[test]
fn custom_blacklists_are_used() {
    let checker = ThreatIntelChecker::with_blacklists(
        vec!["evil.example".to_string(), "evil.example".to_string()],
        vec!["badapp".to_string()],
    );
    assert!(checker.check_url("http://evil.example:80/login").is_malicious);
    assert!(!checker.check_url("https://fake-invest.com").is_malicious);
    assert!(checker.check_app("BadApp").is_malicious);
    let default_checker = ThreatIntelChecker::default();
    assert!(default_checker.check_url("phishing-bank.cn").is_malicious);
}

#[test]
fn extract_domain_edge_cases() {
    assert_eq!(ThreatIntelChecker::extract_domain("example.com"), Some("example.com".into()));
    assert_eq!(ThreatIntelChecker::extract_domain("https:///path"), None);
    assert_eq!(ThreatIntelChecker::extract_domain("HTTP://Mixed.Case/a"), Some("http".into()));
}
