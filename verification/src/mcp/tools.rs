use vstd::prelude::*;
use vstd::string::*;

verus! {

/// One message of a conversation: who sent it (`user` or `other`) and its
/// text.
#[derive(Debug, Clone)]
pub struct ChatMessage {
    pub role: String,
    pub content: String,
}

/// A request to scan one conversation, with an optional hint on its
/// setting.
#[derive(Debug, Clone)]
pub struct ScanConversationRequest {
    pub conversation: Vec<ChatMessage>,
    pub context_hint: Option<String>,
}

/// A request to look for sensitive data in a text.
#[derive(Debug, Clone)]
pub struct DetectSensitiveRequest {
    pub text: String,
}

/// A request to look a URL up.
#[derive(Debug, Clone)]
pub struct CheckUrlRequest {
    pub url: String,
}

/// A request to look an app name up.
#[derive(Debug, Clone)]
pub struct CheckAppRequest {
    pub app_name: String,
}

/// A request to scan several independent conversations.
#[derive(Debug, Clone)]
pub struct BatchScanRequest {
    pub conversations: Vec<Vec<ChatMessage>>,
}

/// The verdict on a conversation. `risk_score` is in hundredths (0 to 100).
#[derive(Debug, Clone)]
pub struct ScanResult {
    pub risk_score: u32,
    pub risk_level: String,
    pub fraud_type: Option<String>,
    pub fraud_type_id: Option<String>,
    pub current_state: Option<String>,
    pub matched_keywords: Vec<String>,
    pub action_suggestion: String,
    pub warning_text: String,
    pub reasoning: Option<String>,
}

/// The sensitive data found in a text.
#[derive(Debug, Clone)]
pub struct SensitiveResult {
    pub found: bool,
    pub sensitive_items: Vec<SensitiveItem>,
}

/// One piece of sensitive data: its kind, its masked value and the byte
/// offset where it starts.
#[derive(Debug, Clone)]
pub struct SensitiveItem {
    pub sensitive_type: String,
    pub value: String,
    pub position: usize,
}

/// The answer to a URL lookup.
#[derive(Debug, Clone)]
pub struct UrlCheckResult {
    pub is_malicious: bool,
    pub threat_type: Option<String>,
    pub source: String,
}

/// The answer to an app lookup.
#[derive(Debug, Clone)]
pub struct AppCheckResult {
    pub is_dangerous: bool,
    pub risk_reason: Option<String>,
    pub source: String,
}

/// The version of the rule set and what changed in it.
#[derive(Debug, Clone)]
pub struct RulesVersionResult {
    pub version: String,
    pub update_notes: String,
}

/// The view of an optional string.
pub open spec fn opt_view(s: Option<String>) -> Option<Seq<char>> {
    match s {
        Some(t) => Some(t@),
        None => None,
    }
}

/// The mathematical value of a `ScanResult`.
#[verifier::ext_equal]
pub struct ScanResultView {
    pub risk_score: u32,
    pub risk_level: Seq<char>,
    pub fraud_type: Option<Seq<char>>,
    pub fraud_type_id: Option<Seq<char>>,
    pub current_state: Option<Seq<char>>,
    pub matched_keywords: Seq<Seq<char>>,
    pub action_suggestion: Seq<char>,
    pub warning_text: Seq<char>,
    pub reasoning: Option<Seq<char>>,
}

impl View for ScanResult {
    type V = ScanResultView;

    open spec fn view(&self) -> ScanResultView {
        ScanResultView {
            risk_score: self.risk_score,
            risk_level: self.risk_level@,
            fraud_type: opt_view(self.fraud_type),
            fraud_type_id: opt_view(self.fraud_type_id),
            current_state: opt_view(self.current_state),
            matched_keywords: self.matched_keywords@.map_values(|k: String| k@),
            action_suggestion: self.action_suggestion@,
            warning_text: self.warning_text@,
            reasoning: opt_view(self.reasoning),
        }
    }
}

/// The mathematical value of a `SensitiveItem`.
#[verifier::ext_equal]
pub struct SensitiveItemView {
    pub sensitive_type: Seq<char>,
    pub value: Seq<char>,
    pub position: int,
}

impl View for SensitiveItem {
    type V = SensitiveItemView;

    open spec fn view(&self) -> SensitiveItemView {
        SensitiveItemView {
            sensitive_type: self.sensitive_type@,
            value: self.value@,
            position: self.position as int,
        }
    }
}

/// The mathematical value of a `SensitiveResult`.
#[verifier::ext_equal]
pub struct SensitiveResultView {
    pub found: bool,
    pub sensitive_items: Seq<SensitiveItemView>,
}

impl View for SensitiveResult {
    type V = SensitiveResultView;

    open spec fn view(&self) -> SensitiveResultView {
        SensitiveResultView {
            found: self.found,
            sensitive_items: self.sensitive_items@.map_values(|i: SensitiveItem| i@),
        }
    }
}

/// The version of the built-in rule set.
pub open spec fn rules_version_spec() -> Seq<char> {
    "0.1.0"@
}

/// What the built-in rule set covers.
pub open spec fn rules_notes_spec() -> Seq<char> {
    "MVP版本：10类诈骗话术状态机 + 敏感信息检测"@
}

/// The version record of the built-in rule set.
pub fn rules_version() -> (r: RulesVersionResult)
    ensures
        r.version@ == rules_version_spec(),
        r.update_notes@ == rules_notes_spec(),
{
    RulesVersionResult {
        version: String::from_str("0.1.0"),
        update_notes: String::from_str("MVP版本：10类诈骗话术状态机 + 敏感信息检测"),
    }
}

} // verus!
