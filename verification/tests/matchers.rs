use owlguard_mcp::matchers::keyword::KeywordMatcher;
use owlguard_mcp::matchers::regex_matcher::RegexMatcher;
use owlguard_mcp::matchers::{MatchResult, Matcher};

#[test]
fn test_basic_matching() {
    let keywords: Vec<String> = vec!["兼职".into(), "日结".into(), "宝妈可做".into()];
    let matcher = KeywordMatcher::new(&keywords).unwrap();
    let matches = matcher.find_matches("手机兼职，日结300-500");

    assert_eq!(matches.len(), 2);
    assert_eq!(matches[0].keyword, "兼职");
    assert_eq!(matches[1].keyword, "日结");
}

#[test]
fn test_case_insensitive() {
    let keywords: Vec<String> = vec!["APP".into(), "VIP".into()];
    let matcher = KeywordMatcher::new(&keywords).unwrap();
    let matches = matcher.find_matches("扫码下载app，开通vip通道");

    assert_eq!(matches.len(), 2);
    assert_eq!(matches[0].keyword, "APP");
    assert_eq!(matches[1].keyword, "VIP");
}

#[test]
fn keyword_test_no_match() {
    let keywords: Vec<String> = vec!["兼职".into(), "日结".into()];
    let matcher = KeywordMatcher::new(&keywords).unwrap();
    let matches = matcher.find_matches("今天天气真好");

    assert!(matches.is_empty());
}

#[test]
fn test_multiple_occurrences() {
    let keywords: Vec<String> = vec!["兼职".into()];
    let matcher = KeywordMatcher::new(&keywords).unwrap();
    let matches = matcher.find_matches("兼职一：刷单兼职，兼职二：代练");

    assert_eq!(matches.len(), 3);
}

#[test]
fn test_empty_keywords() {
    let keywords: Vec<String> = vec![];
    let matcher = KeywordMatcher::new(&keywords).unwrap();
    let matches = matcher.find_matches("任何文本");

    assert!(matches.is_empty());
}

#[test]
fn test_position_accuracy() {
    let keywords: Vec<String> = vec!["hello".into()];
    let matcher = KeywordMatcher::new(&keywords).unwrap();
    let matches = matcher.find_matches("say hello world");

    assert_eq!(matches.len(), 1);
    assert_eq!(matches[0].start, 4);
    assert_eq!(matches[0].end, 9);
    assert_eq!(matches[0].keyword, "hello");
}

#[test]
fn keyword_spans_are_byte_offsets() {
    let keywords: Vec<String> = vec!["VIP".into()];
    let matcher = KeywordMatcher::new(&keywords).unwrap();
    let matches = matcher.find_matches("开通Vip");
    assert_eq!(matches.len(), 1);
    assert_eq!(matches[0].start, 6);
    assert_eq!(matches[0].end, 9);
    assert_eq!(matches[0].keyword, "VIP");
}

#[test]
fn test_keyword_matcher_via_trait() {
    let keywords: Vec<String> = vec!["兼职".into(), "日结".into()];
    let matcher = KeywordMatcher::new(&keywords).unwrap();
    let results: Vec<MatchResult> = Matcher::find_matches(&matcher, "手机兼职日结300");
    assert_eq!(results.len(), 2);
}

#[test]
fn keyword_match_result_names_the_keyword_twice() {
    let keywords: Vec<String> = vec!["APP".into()];
    let matcher = KeywordMatcher::new(&keywords).unwrap();
    let results: Vec<MatchResult> = Matcher::find_matches(&matcher, "下载app");
    assert_eq!(results.len(), 1);
    assert_eq!(results[0].pattern, "APP");
    assert_eq!(results[0].matched_text, "APP");
    assert_eq!(results[0].start, 6);
    assert_eq!(results[0].end, 9);
}

#[test]
fn test_regex_matcher_via_trait() {
    let patterns: Vec<String> = vec![r"\d{6}".into()];
    let matcher = RegexMatcher::new(&patterns).unwrap();
    let results: Vec<MatchResult> = Matcher::find_matches(&matcher, "验证码123456");
    assert!(!results.is_empty());
    assert_eq!(results[0].matched_text, "123456");
}

#[test]
fn test_bank_card_pattern() {
    let patterns: Vec<String> = vec![r"\d{16,19}".into()];
    let matcher = RegexMatcher::new(&patterns).unwrap();
    let matches = matcher.find_matches("卡号6222021234567890123请转账");

    assert!(!matches.is_empty());
    assert_eq!(matches[0].matched_text, "6222021234567890123");
}

#[test]
fn test_id_card_pattern() {
    let patterns: Vec<String> =
        vec![r"[1-9]\d{5}(18|19|20)?\d{2}(0[1-9]|1[0-2])(0[1-9]|[12]\d|3[01])\d{3}[\dXx]".into()];
    let matcher = RegexMatcher::new(&patterns).unwrap();
    let matches = matcher.find_matches("身份证号11010519491231002X");

    assert!(!matches.is_empty());
}

#[test]
fn test_verification_code_pattern() {
    let patterns: Vec<String> = vec![r"\d{6}".into()];
    let matcher = RegexMatcher::new(&patterns).unwrap();
    let matches = matcher.find_matches("验证码是123456");

    assert!(!matches.is_empty());
    assert_eq!(matches[0].matched_text, "123456");
}

#[test]
fn regex_matcher_test_no_match() {
    let patterns: Vec<String> = vec![r"\d{16,19}".into()];
    let matcher = RegexMatcher::new(&patterns).unwrap();
    let matches = matcher.find_matches("这段文本没有银行卡号");

    assert!(matches.is_empty());
}

#[test]
fn test_invalid_pattern() {
    let patterns: Vec<String> = vec!["[invalid".into()];
    let result = RegexMatcher::new(&patterns);
    assert!(result.is_err());
}

#[test]
fn invalid_pattern_is_named() {
    let patterns: Vec<String> = vec![r"\d".into(), "(".into(), "[".into()];
    match RegexMatcher::new(&patterns) {
        Err(e) => {
            assert_eq!(e.pattern, "(");
            assert!(!e.message.is_empty());
            assert_ne!(e.message, e.pattern);
        }
        Ok(_) => panic!("an unbalanced pattern compiled"),
    }
}

#[test]
fn test_multiple_patterns() {
    let patterns: Vec<String> = vec![r"\d{6}".into(), r"[a-zA-Z]+".into()];
    let matcher = RegexMatcher::new(&patterns).unwrap();
    let matches = matcher.find_matches("验证码abc123456xyz");

    assert!(matches.len() >= 2);
}

#[test]
fn matches_come_pattern_by_pattern() {
    let patterns: Vec<String> = vec![r"[a-z]+".into(), r"\d+".into()];
    let matcher = RegexMatcher::new(&patterns).unwrap();
    let matches = matcher.find_matches("ab12cd34");
    let texts: Vec<&str> = matches.iter().map(|m| m.matched_text.as_str()).collect();
    assert_eq!(texts, vec!["ab", "cd", "12", "34"]);
    assert_eq!(matches[2].pattern, r"\d+");
    assert_eq!((matches[2].start, matches[2].end), (2, 4));
}
