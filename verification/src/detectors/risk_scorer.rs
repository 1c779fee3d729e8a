use vstd::prelude::*;
use vstd::string::*;
use crate::detectors::sensitive::{SensitiveInfo, SensitiveInfoView, SensitiveType, infos_view};
use crate::detectors::state_machine::{ActionSuggestion, AlertLevel, FraudType};
use crate::utils::text::{join, strs_view, join_strs};

verus! {

/// The overall verdict on a conversation. `risk_score` is in hundredths
/// (0 to 100).
#[derive(Debug, Clone)]
pub struct RiskAssessment {
    pub risk_score: u32,
    pub risk_level: AlertLevel,
    pub fraud_type: Option<FraudType>,
    pub action_suggestion: ActionSuggestion,
    pub warning_text: String,
    pub reasoning: String,
}

/// The mathematical value of a `RiskAssessment`.
#[verifier::ext_equal]
pub struct RiskAssessmentView {
    pub risk_score: u32,
    pub risk_level: AlertLevel,
    pub fraud_type: Option<FraudType>,
    pub action_suggestion: ActionSuggestion,
    pub warning_text: Seq<char>,
    pub reasoning: Seq<char>,
}

impl View for RiskAssessment {
    type V = RiskAssessmentView;

    open spec fn view(&self) -> RiskAssessmentView {
        RiskAssessmentView {
            risk_score: self.risk_score,
            risk_level: self.risk_level,
            fraud_type: self.fraud_type,
            action_suggestion: self.action_suggestion,
            warning_text: self.warning_text@,
            reasoning: self.reasoning@,
        }
    }
}

/// Combines the verdict of the fraud scripts with the sensitive data found.
pub struct RiskScorer;

/// Some finding in `items` is of kind `t`.
pub open spec fn has_type(items: Seq<SensitiveInfoView>, t: SensitiveType) -> bool {
    exists|i: int| 0 <= i < items.len() && #[trigger] items[i].sensitive_type == t
}

/// `score + bonus`, capped at 100.
pub open spec fn raise(score: u32, bonus: u32) -> u32 {
    if score + bonus > 100 { 100 } else { (score + bonus) as u32 }
}

/// The name of the fraud kind, or "unknown".
pub open spec fn type_name_or_unknown(t: Option<FraudType>) -> Seq<char> {
    match t {
        Some(t) => t.name_spec(),
        None => "未知"@,
    }
}

/// The critical warning: a script under way and a code or password asked for.
pub open spec fn critical_warning(t: Option<FraudType>, code_asked: bool) -> Seq<char> {
    "⚠️ 极度危险：检测到"@ + type_name_or_unknown(t) + "话术且对方索要"@
        + (if code_asked { "验证码"@ } else { "支付密码"@ }) + "，这是诈骗最后阶段！"@
        + "立即停止对话，拨打96110！"@
}

/// The warning when a bank card number is asked for during a script.
pub open spec fn bank_card_warning(t: Option<FraudType>) -> Seq<char> {
    "🔴 高危：检测到"@ + type_name_or_unknown(t) + "话术且对方索要银行卡号，极可能是诈骗！"@
        + "切勿继续提供信息，拨打96110求助"@
}

/// The warning when an identity number is asked for during a script.
pub open spec fn id_card_warning(t: Option<FraudType>) -> Seq<char> {
    "🔴 高危：检测到"@ + type_name_or_unknown(t) + "话术且对方索要身份证号，极可能是诈骗！"@
}

/// The kinds of the findings, as text.
pub open spec fn type_names(items: Seq<SensitiveInfoView>) -> Seq<Seq<char>> {
    items.map_values(|s: SensitiveInfoView| s.sensitive_type.as_str_spec())
}

/// The explanation: "no risk" when there is nothing; otherwise the script's
/// explanation and the list of sensitive kinds found, joined by "；".
pub open spec fn assessment_reasoning(fraud_reasoning: Seq<char>, items: Seq<SensitiveInfoView>) -> Seq<char> {
    if fraud_reasoning.len() == 0 && items.len() == 0 {
        "未检测到风险"@
    } else {
        let sensitive = "检测到敏感信息: "@ + join(type_names(items), ", "@);
        if items.len() == 0 {
            fraud_reasoning
        } else if fraud_reasoning.len() == 0 {
            sensitive
        } else {
            fraud_reasoning + "；"@ + sensitive
        }
    }
}

/// The assessment, by the first rule that applies:
/// a script past 0.5 with a verification code or payment password asked for
/// is critical (score raised by 0.3); past 0.3 with a bank card number is
/// high (raised by 0.2); past 0.3 with an identity number is high (raised by
/// 0.15); past 0.6 alone keeps the script's advice (high if it blocks,
/// medium otherwise); past 0.3 is medium with a warning; past 0.1 is low,
/// to be monitored; sensitive data alone is medium with a score of 0.3;
/// otherwise nothing.
pub open spec fn assessment(
    fraud_risk_score: u32,
    fraud_type: Option<FraudType>,
    fraud_action: ActionSuggestion,
    fraud_warning: Seq<char>,
    items: Seq<SensitiveInfoView>,
    fraud_reasoning: Seq<char>,
) -> RiskAssessmentView {
    let code = has_type(items, SensitiveType::VerificationCode);
    let pay = has_type(items, SensitiveType::PayPassword);
    let bank = has_type(items, SensitiveType::BankCard);
    let id = has_type(items, SensitiveType::IdCard);
    let reasoning = assessment_reasoning(fraud_reasoning, items);
    if fraud_risk_score > 50 && (code || pay) {
        RiskAssessmentView {
            risk_score: raise(fraud_risk_score, 30),
            risk_level: AlertLevel::Critical,
            fraud_type: fraud_type,
            action_suggestion: ActionSuggestion::Block,
            warning_text: critical_warning(fraud_type, code),
            reasoning: reasoning,
        }
    } else if fraud_risk_score > 30 && bank {
        RiskAssessmentView {
            risk_score: raise(fraud_risk_score, 20),
            risk_level: AlertLevel::High,
            fraud_type: fraud_type,
            action_suggestion: ActionSuggestion::Block,
            warning_text: bank_card_warning(fraud_type),
            reasoning: reasoning,
        }
    } else if fraud_risk_score > 30 && id {
        RiskAssessmentView {
            risk_score: raise(fraud_risk_score, 15),
            risk_level: AlertLevel::High,
            fraud_type: fraud_type,
            action_suggestion: ActionSuggestion::Block,
            warning_text: id_card_warning(fraud_type),
            reasoning: reasoning,
        }
    } else if fraud_risk_score > 60 {
        RiskAssessmentView {
            risk_score: fraud_risk_score,
            risk_level: if fraud_action == ActionSuggestion::Block { AlertLevel::High } else { AlertLevel::Medium },
            fraud_type: fraud_type,
            action_suggestion: fraud_action,
            warning_text: fraud_warning,
            reasoning: reasoning,
        }
    } else if fraud_risk_score > 30 {
        RiskAssessmentView {
            risk_score: fraud_risk_score,
            risk_level: AlertLevel::Medium,
            fraud_type: fraud_type,
            action_suggestion: ActionSuggestion::Warn,
            warning_text: fraud_warning,
            reasoning: reasoning,
        }
    } else if fraud_risk_score > 10 {
        RiskAssessmentView {
            risk_score: fraud_risk_score,
            risk_level: AlertLevel::Low,
            fraud_type: fraud_type,
            action_suggestion: ActionSuggestion::Monitor,
            warning_text: fraud_warning,
            reasoning: reasoning,
        }
    } else if items.len() > 0 {
        RiskAssessmentView {
            risk_score: 30,
            risk_level: AlertLevel::Medium,
            fraud_type: fraud_type,
            action_suggestion: ActionSuggestion::Warn,
            warning_text: "检测到敏感信息但无诈骗话术背景，请注意保护个人信息"@,
            reasoning: reasoning,
        }
    } else {
        RiskAssessmentView {
            risk_score: fraud_risk_score,
            risk_level: AlertLevel::NoRisk,
            fraud_type: fraud_type,
            action_suggestion: ActionSuggestion::NoAction,
            warning_text: Seq::empty(),
            reasoning: reasoning,
        }
    }
}

/// The verdict keeps the promises of the scoring model. On a script score
/// of at most 1.0: the verdict's score stays within 0..=1.0 and never falls
/// below the script's; critical and high verdicts block; a verdict is
/// critical exactly when the script is past 0.5 and a verification code or
/// payment password was found; it is of no risk exactly when the script is
/// at most 0.1 and nothing sensitive was found, and then asks for nothing;
/// sensitive data with a script of at most 0.1 gives a medium warning of
/// 0.3. Unless a code, password, card or identity number
/// raises the verdict, a script past 0.6 keeps its own advice, one past 0.3
/// is a medium warning and one past 0.1 is low, to be monitored; in each of
/// these the verdict keeps the script's score and warning. A script past 0.1
/// and at most 0.3 is always low, whatever sensitive data was found.
pub proof fn lemma_assessment_consistent(
    fraud_risk_score: u32,
    fraud_type: Option<FraudType>,
    fraud_action: ActionSuggestion,
    fraud_warning: Seq<char>,
    items: Seq<SensitiveInfoView>,
    fraud_reasoning: Seq<char>,
) -> (a: RiskAssessmentView)
    requires
        fraud_risk_score <= 100,
    ensures
        a == assessment(fraud_risk_score, fraud_type, fraud_action, fraud_warning, items, fraud_reasoning),
        fraud_risk_score <= a.risk_score <= 100,
        (a.risk_level == AlertLevel::Critical || a.risk_level == AlertLevel::High) ==> a.action_suggestion
            == ActionSuggestion::Block,
        a.risk_level == AlertLevel::Critical <==> (fraud_risk_score > 50 && (has_type(
            items,
            SensitiveType::VerificationCode,
        ) || has_type(items, SensitiveType::PayPassword))),
        a.risk_level == AlertLevel::NoRisk <==> (fraud_risk_score <= 10 && items.len() == 0),
        a.risk_level == AlertLevel::NoRisk ==> a.action_suggestion == ActionSuggestion::NoAction,
        (fraud_risk_score <= 10 && items.len() > 0) ==> (a.risk_level == AlertLevel::Medium
            && a.action_suggestion == ActionSuggestion::Warn && a.risk_score == 30),
        (30 < fraud_risk_score <= 60 && items.len() == 0) ==> (a.risk_level == AlertLevel::Medium
            && a.action_suggestion == ActionSuggestion::Warn),
        (10 < fraud_risk_score <= 30 && items.len() == 0) ==> (a.risk_level == AlertLevel::Low
            && a.action_suggestion == ActionSuggestion::Monitor),
        fraud_risk_score > 60 && items.len() == 0 ==> a.action_suggestion == fraud_action,
        (fraud_risk_score > 10 && !(fraud_risk_score > 50 && (has_type(items, SensitiveType::VerificationCode)
            || has_type(items, SensitiveType::PayPassword))) && !(fraud_risk_score > 30 && (has_type(
            items,
            SensitiveType::BankCard,
        ) || has_type(items, SensitiveType::IdCard)))) ==> {
            &&& a.risk_score == fraud_risk_score
            &&& a.warning_text == fraud_warning
            &&& a.action_suggestion == (if fraud_risk_score > 60 {
                fraud_action
            } else if fraud_risk_score > 30 {
                ActionSuggestion::Warn
            } else {
                ActionSuggestion::Monitor
            })
            &&& a.risk_level == (if fraud_risk_score > 60 {
                if fraud_action == ActionSuggestion::Block { AlertLevel::High } else { AlertLevel::Medium }
            } else if fraud_risk_score > 30 {
                AlertLevel::Medium
            } else {
                AlertLevel::Low
            })
        },
        (10 < fraud_risk_score <= 30) ==> (a.risk_level == AlertLevel::Low && a.action_suggestion
            == ActionSuggestion::Monitor && a.risk_score == fraud_risk_score && a.warning_text == fraud_warning),
        a.fraud_type == fraud_type,
{
    assessment(fraud_risk_score, fraud_type, fraud_action, fraud_warning, items, fraud_reasoning)
}

/// Whether some finding is of kind `t`.
fn any_of_type(items: &[SensitiveInfo], t: SensitiveType) -> (b: bool)
    ensures
        b == has_type(infos_view(items@), t),
{
    let mut i: usize = 0;
    while i < items.len()
        invariant
            i <= items.len(),
            forall|j: int| 0 <= j < i ==> items@[j].sensitive_type != t,
        decreases items.len() - i,
    {
        if items[i].sensitive_type == t {
            assert(infos_view(items@)[i as int].sensitive_type == t);
            return true;
        }
        i = i + 1;
    }
    false
}

/// `score + bonus`, capped at 100.
fn raise_score(score: u32, bonus: u32) -> (r: u32)
    requires
        bonus <= 100,
    ensures
        r == raise(score, bonus),
{
    if score > 100 - bonus { 100 } else { score + bonus }
}

fn kind_name(t: Option<FraudType>) -> (s: &'static str)
    ensures
        s@ == type_name_or_unknown(t),
{
    match t {
        Some(t) => t.name(),
        None => "未知",
    }
}

fn reasoning_of(fraud_reasoning: String, items: &[SensitiveInfo]) -> (r: String)
    ensures
        r@ == assessment_reasoning(fraud_reasoning@, infos_view(items@)),
{
    if fraud_reasoning.as_str().is_empty() && items.len() == 0 {
        return String::from_str("未检测到风险");
    }
    if items.len() == 0 {
        return fraud_reasoning;
    }
    let mut names: Vec<&str> = Vec::new();
    let mut i: usize = 0;
    while i < items.len()
        invariant
            i <= items.len(),
            names.len() == i,
            strs_view(names@) == type_names(infos_view(items@.subrange(0, i as int))),
        decreases items.len() - i,
    {
        let ghost before = names@;
        names.push(items[i].sensitive_type.as_str());
        assert forall|j: int| 0 <= j < i + 1 implies strs_view(names@)[j] == type_names(
            infos_view(items@.subrange(0, i as int + 1)),
        )[j] by {
            if j < i {
                assert(strs_view(before)[j] == type_names(infos_view(items@.subrange(0, i as int)))[j]);
            }
        }
        assert(strs_view(names@) =~= type_names(infos_view(items@.subrange(0, i as int + 1))));
        i = i + 1;
    }
    assert(items@.subrange(0, items@.len() as int) == items@);
    let mut sensitive = String::from_str("检测到敏感信息: ");
    let joined = join_strs(&names, ", ");
    sensitive.append(joined.as_str());
    if fraud_reasoning.as_str().is_empty() {
        sensitive
    } else {
        let mut r = fraud_reasoning;
        r.append("；");
        r.append(sensitive.as_str());
        r
    }
}

impl RiskScorer {
    /// Assesses a conversation from the best fraud script's score (in
    /// hundredths), kind, advice, warning and explanation, and the
    /// sensitive data found: see `assessment`.
    pub fn assess(
        fraud_risk_score: u32,
        fraud_type: Option<FraudType>,
        fraud_action: ActionSuggestion,
        fraud_warning: String,
        sensitive_items: &[SensitiveInfo],
        fraud_reasoning: String,
    ) -> (res: RiskAssessment)
        ensures
            res@ == assessment(
                fraud_risk_score,
                fraud_type,
                fraud_action,
                fraud_warning@,
                infos_view(sensitive_items@),
                fraud_reasoning@,
            ),
    {
        let has_verification_code = any_of_type(sensitive_items, SensitiveType::VerificationCode);
        let has_pay_password = any_of_type(sensitive_items, SensitiveType::PayPassword);
        let has_bank_card = any_of_type(sensitive_items, SensitiveType::BankCard);
        let has_id_card = any_of_type(sensitive_items, SensitiveType::IdCard);
        let reasoning = reasoning_of(fraud_reasoning, sensitive_items);

        if fraud_risk_score > 50 && (has_verification_code || has_pay_password) {
            let mut warning = String::from_str("⚠️ 极度危险：检测到");
            warning.append(kind_name(fraud_type));
            warning.append("话术且对方索要");
            warning.append(if has_verification_code { "验证码" } else { "支付密码" });
            warning.append("，这是诈骗最后阶段！");
            warning.append("立即停止对话，拨打96110！");
            RiskAssessment {
                risk_score: raise_score(fraud_risk_score, 30),
                risk_level: AlertLevel::Critical,
                fraud_type,
                action_suggestion: ActionSuggestion::Block,
                warning_text: warning,
                reasoning,
            }
        } else if fraud_risk_score > 30 && has_bank_card {
            let mut warning = String::from_str("🔴 高危：检测到");
            warning.append(kind_name(fraud_type));
            warning.append("话术且对方索要银行卡号，极可能是诈骗！");
            warning.append("切勿继续提供信息，拨打96110求助");
            RiskAssessment {
                risk_score: raise_score(fraud_risk_score, 20),
                risk_level: AlertLevel::High,
                fraud_type,
                action_suggestion: ActionSuggestion::Block,
                warning_text: warning,
                reasoning,
            }
        } else if fraud_risk_score > 30 && has_id_card {
            let mut warning = String::from_str("🔴 高危：检测到");
            warning.append(kind_name(fraud_type));
            warning.append("话术且对方索要身份证号，极可能是诈骗！");
            RiskAssessment {
                risk_score: raise_score(fraud_risk_score, 15),
                risk_level: AlertLevel::High,
                fraud_type,
                action_suggestion: ActionSuggestion::Block,
                warning_text: warning,
                reasoning,
            }
        } else if fraud_risk_score > 60 {
            let level = if fraud_action == ActionSuggestion::Block {
                AlertLevel::High
            } else {
                AlertLevel::Medium
            };
            RiskAssessment {
                risk_score: fraud_risk_score,
                risk_level: level,
                fraud_type,
                action_suggestion: fraud_action,
                warning_text: fraud_warning,
                reasoning,
            }
        } else if fraud_risk_score > 30 {
            RiskAssessment {
                risk_score: fraud_risk_score,
                risk_level: AlertLevel::Medium,
                fraud_type,
                action_suggestion: ActionSuggestion::Warn,
                warning_text: fraud_warning,
                reasoning,
            }
        } else if fraud_risk_score > 10 {
            RiskAssessment {
                risk_score: fraud_risk_score,
                risk_level: AlertLevel::Low,
                fraud_type,
                action_suggestion: ActionSuggestion::Monitor,
                warning_text: fraud_warning,
                reasoning,
            }
        } else if sensitive_items.len() > 0 {
            RiskAssessment {
                risk_score: 30,
                risk_level: AlertLevel::Medium,
                fraud_type,
                action_suggestion: ActionSuggestion::Warn,
                warning_text: String::from_str("检测到敏感信息但无诈骗话术背景，请注意保护个人信息"),
                reasoning,
            }
        } else {
            RiskAssessment {
                risk_score: fraud_risk_score,
                risk_level: AlertLevel::NoRisk,
                fraud_type,
                action_suggestion: ActionSuggestion::NoAction,
                warning_text: String::new(),
                reasoning,
            }
        }
    }
}

} // verus!
