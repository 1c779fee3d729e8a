use vstd::prelude::*;
use vstd::string::*;
use crate::utils::text::{join, join_strs, strs_view, strings_view, copy_strings};
use crate::detectors::risk_scorer::{RiskScorer, assessment, has_type};
use crate::detectors::sensitive::{
    SensitiveDetector, SensitiveDetectorView, SensitiveInfoView, SensitiveType, detection, detection_defined, default_detector,
    infos_view, bank_card_pattern, id_card_pattern, code_pattern,
};
use crate::matchers::regex_matcher::regex_compiles;
use crate::detectors::state_machine::{
    ActionSuggestion, FraudStateMachine, FraudStateMachineDefView, FraudStateView, FraudType, GenericStateMachine,
    MachineView, initial_machine, machine_wf, run, reasoning_text, scores_increase,
};
use crate::detectors::state_machine::properties::{lemma_run_moves_forward, lemma_initial_machine_wf};
use crate::detectors::risk_scorer::lemma_assessment_consistent;
use crate::detectors::state_machine::brushing::{brushing_definition, create_brushing_machine, lemma_brushing_scores_increase};
use crate::detectors::state_machine::investment::{investment_definition, create_investment_machine, lemma_investment_scores_increase};
use crate::detectors::state_machine::fake_shopping::{fake_shopping_definition, create_fake_shopping_machine, lemma_fake_shopping_scores_increase};
use crate::detectors::state_machine::fake_customer::{fake_customer_definition, create_fake_customer_machine, lemma_fake_customer_scores_increase};
use crate::detectors::state_machine::loan_credit::{loan_credit_definition, create_loan_credit_machine, lemma_loan_credit_scores_increase};
use crate::detectors::state_machine::fake_leader::{fake_leader_definition, create_fake_leader_machine, lemma_fake_leader_scores_increase};
use crate::detectors::state_machine::fake_police::{fake_police_definition, create_fake_police_machine, lemma_fake_police_scores_increase};
use crate::detectors::state_machine::romance::{romance_definition, create_romance_machine, lemma_romance_scores_increase};
use crate::detectors::state_machine::game_trade::{game_trade_definition, create_game_trade_machine, lemma_game_trade_scores_increase};
use crate::detectors::state_machine::flight_change::{flight_change_definition, create_flight_change_machine, lemma_flight_change_scores_increase};
use crate::detectors::threat_intel::{ThreatIntelChecker, ThreatIntelView, url_listed, default_urls, default_apps};
use crate::utils::text::lowercase;
use crate::mcp::tools::{
    ChatMessage, ScanResult, ScanResultView, SensitiveResult, SensitiveResultView, SensitiveItem, SensitiveItemView,
    UrlCheckResult, AppCheckResult, opt_view,
};

verus! {

/// The built-in fraud scripts, in the order a scan runs them.
pub open spec fn builtin_definitions() -> Seq<FraudStateMachineDefView> {
    seq![
        brushing_definition(),
        investment_definition(),
        fake_shopping_definition(),
        fake_customer_definition(),
        loan_credit_definition(),
        fake_leader_definition(),
        fake_police_definition(),
        romance_definition(),
        game_trade_definition(),
        flight_change_definition(),
    ]
}

/// The texts of the messages, in order.
pub open spec fn contents(messages: Seq<ChatMessage>) -> Seq<Seq<char>> {
    messages.map_values(|m: ChatMessage| m.content@)
}

/// The stage a machine is at.
pub open spec fn current(m: MachineView) -> FraudStateView {
    m.def.states[m.current_index]
}

/// Every built-in script after reading `texts`, each from its start.
pub open spec fn finals(texts: Seq<Seq<char>>) -> Seq<MachineView> {
    builtin_definitions().map_values(|d: FraudStateMachineDefView| run(initial_machine(d), texts))
}

/// The first machine of `ms` whose risk score is the highest, provided that
/// score is above zero: a later machine replaces the one kept only with a
/// strictly higher score.
pub open spec fn best_among(ms: Seq<MachineView>) -> Option<int>
    decreases ms.len(),
{
    if ms.len() == 0 {
        None
    } else {
        let prev = best_among(ms.drop_last());
        let kept: int = match prev {
            Some(i) => current(ms[i]).risk_score as int,
            None => 0,
        };
        if current(ms.last()).risk_score > kept {
            Some(ms.len() - 1)
        } else {
            prev
        }
    }
}

/// The script that best explains `texts`, if any script got past its start
/// with a positive score.
pub open spec fn best_machine(texts: Seq<Seq<char>>) -> Option<MachineView> {
    match best_among(finals(texts)) {
        Some(i) => Some(finals(texts)[i]),
        None => None,
    }
}

/// The risk score of the best script, or zero.
pub open spec fn fraud_score(best: Option<MachineView>) -> u32 {
    match best {
        Some(m) => current(m).risk_score,
        None => 0,
    }
}

/// The verdict on a conversation whose messages read `texts`, with a
/// detector configured as `d`: the sensitive data found in the texts joined
/// by spaces, combined with the best script by `assessment`.
pub open spec fn scan_outcome(d: SensitiveDetectorView, texts: Seq<Seq<char>>) -> ScanResultView {
    let items = detection(d, join(texts, " "@));
    let best = best_machine(texts);
    let score = fraud_score(best);
    let a = assessment(
        score,
        match best {
            Some(m) => if score > 0 { Some(m.def.fraud_type) } else { None },
            None => None,
        },
        match best {
            Some(m) => current(m).action_suggestion,
            None => ActionSuggestion::NoAction,
        },
        match best {
            Some(m) => current(m).warning_text,
            None => Seq::empty(),
        },
        items,
        match best {
            Some(m) => reasoning_text(m),
            None => Seq::empty(),
        },
    );
    ScanResultView {
        risk_score: a.risk_score,
        risk_level: a.risk_level.as_str_spec(),
        fraud_type: match a.fraud_type {
            Some(t) => Some(t.name_spec()),
            None => None,
        },
        fraud_type_id: match a.fraud_type {
            Some(t) => Some(t.id_spec()),
            None => None,
        },
        current_state: if score > 0 {
            match best {
                Some(m) => Some(current(m).name),
                None => Some("初始"@),
            }
        } else {
            None
        },
        matched_keywords: match best {
            Some(m) => m.matched_keywords,
            None => Seq::empty(),
        },
        action_suggestion: a.action_suggestion.as_str_spec(),
        warning_text: a.warning_text,
        reasoning: Some(a.reasoning),
    }
}

/// Whether a scan can run: detection is defined on the joined texts.
pub open spec fn scan_defined(d: SensitiveDetectorView, texts: Seq<Seq<char>>) -> bool {
    detection_defined(d, join(texts, " "@))
}

/// The findings as reported to a client: whether there are any, and each
/// with its kind as text.
pub open spec fn sensitive_outcome(items: Seq<SensitiveInfoView>) -> SensitiveResultView {
    SensitiveResultView {
        found: items.len() > 0,
        sensitive_items: items.map_values(|s: SensitiveInfoView| SensitiveItemView {
            sensitive_type: s.sensitive_type.as_str_spec(),
            value: s.value,
            position: s.position,
        }),
    }
}

/// A machine at the start of the built-in script number `k`.
fn builtin_machine(k: usize) -> (sm: GenericStateMachine)
    requires
        k < 10,
    ensures
        sm@ == initial_machine(builtin_definitions()[k as int]),
        machine_wf(sm@),
{
    match k {
        0 => create_brushing_machine(),
        1 => create_investment_machine(),
        2 => create_fake_shopping_machine(),
        3 => create_fake_customer_machine(),
        4 => create_loan_credit_machine(),
        5 => create_fake_leader_machine(),
        6 => create_fake_police_machine(),
        7 => create_romance_machine(),
        8 => create_game_trade_machine(),
        _ => create_flight_change_machine(),
    }
}

/// Feeds every message to `sm`, in order.
fn run_machine(sm: &mut GenericStateMachine, messages: &[ChatMessage])
    requires
        machine_wf(old(sm)@),
    ensures
        machine_wf(final(sm)@),
        final(sm)@ == run(old(sm)@, contents(messages@)),
{
    let ghost m0 = sm@;
    let ghost texts = contents(messages@);
    let mut j: usize = 0;
    while j < messages.len()
        invariant
            j <= messages.len(),
            texts == contents(messages@),
            machine_wf(sm@),
            sm@ == run(m0, texts.subrange(0, j as int)),
        decreases messages.len() - j,
    {
        sm.transition(messages[j].content.as_str());
        proof {
            let ts = texts.subrange(0, j as int + 1);
            assert(ts.drop_last() =~= texts.subrange(0, j as int));
            assert(ts.last() == messages@[j as int].content@);
        }
        j = j + 1;
    }
    assert(texts.subrange(0, texts.len() as int) =~= texts);
}

/// Ties the detectors together: runs every fraud script over a
/// conversation, looks for sensitive data and asks the threat lists.
pub struct ScanOrchestrator {
    sensitive_detector: SensitiveDetector,
    threat_checker: ThreatIntelChecker,
}

impl ScanOrchestrator {
    /// The configuration of the sensitive-data detector.
    pub closed spec fn detector(self) -> SensitiveDetectorView {
        self.sensitive_detector@
    }

    /// The threat lists.
    pub closed spec fn threats(self) -> ThreatIntelView {
        self.threat_checker@
    }

    /// The orchestrator with the built-in detector and blacklists; `None`
    /// when one of the detector's patterns does not compile.
    pub fn new() -> (r: Option<Self>)
        ensures
            r is Some <==> (regex_compiles(bank_card_pattern()) && regex_compiles(id_card_pattern())
                && regex_compiles(code_pattern())),
            r matches Some(o) ==> o.detector() == default_detector() && o.threats().urls == default_urls()
                && o.threats().apps == default_apps(),
    {
        match SensitiveDetector::new() {
            Some(sensitive_detector) => Some(
                ScanOrchestrator { sensitive_detector, threat_checker: ThreatIntelChecker::new() },
            ),
            None => None,
        }
    }

    /// The verdict on a conversation: see `scan_outcome`. `None` when
    /// detection cannot run on the joined messages.
    #[verifier::rlimit(40)]
    pub fn scan_conversation(&self, messages: &[ChatMessage]) -> (r: Option<ScanResult>)
        ensures
            r is Some <==> scan_defined(self.detector(), contents(messages@)),
            r matches Some(res) ==> res@ == scan_outcome(self.detector(), contents(messages@)),
    {
        let ghost texts = contents(messages@);
        let mut parts: Vec<&str> = Vec::new();
        let mut i: usize = 0;
        while i < messages.len()
            invariant
                i <= messages.len(),
                texts == contents(messages@),
                strs_view(parts@) == texts.subrange(0, i as int),
            decreases messages.len() - i,
        {
            let ghost prev = parts@;
            parts.push(messages[i].content.as_str());
            assert(texts[i as int] == messages@[i as int].content@);
            assert(strs_view(parts@) =~= strs_view(prev).push(texts[i as int]));
            assert(strs_view(parts@) =~= texts.subrange(0, i as int + 1));
            i = i + 1;
        }
        assert(texts.subrange(0, texts.len() as int) =~= texts);
        let all_text = join_strs(&parts, " ");
        let items = match self.sensitive_detector.detect(all_text.as_str()) {
            Some(v) => v,
            None => {
                return None;
            },
        };

        let ghost ms = finals(texts);
        let mut best: Option<GenericStateMachine> = None;
        let mut best_score: u32 = 0;
        let mut k: usize = 0;
        while k < 10
            invariant
                k <= 10,
                texts == contents(messages@),
                ms == finals(texts),
                ms.len() == 10,
                match best_among(ms.subrange(0, k as int)) {
                    Some(b) => best matches Some(sm) && 0 <= b < k && sm@ == ms[b] && machine_wf(sm@)
                        && best_score == current(ms[b]).risk_score,
                    None => best is None && best_score == 0,
                },
            decreases 10 - k,
        {
            let mut sm = builtin_machine(k);
            run_machine(&mut sm, messages);
            let score = sm.risk_score();
            proof {
                let sub = ms.subrange(0, k as int + 1);
                assert(sub.drop_last() =~= ms.subrange(0, k as int));
                assert(sub.last() == ms[k as int]);
                assert(ms[k as int] == run(initial_machine(builtin_definitions()[k as int]), texts));
                match best_among(ms.subrange(0, k as int)) {
                    Some(b) => {
                        assert(sub[b] == ms[b]);
                    },
                    None => {},
                }
            }
            if score > best_score {
                best_score = score;
                best = Some(sm);
            }
            k = k + 1;
        }
        assert(ms.subrange(0, 10) =~= ms);

        let fraud_score = best_score;
        let (fraud_type, state_name, fraud_action, fraud_warning, fraud_reasoning, matched_keywords) = match &best {
            Some(sm) => (
                sm.fraud_type(),
                sm.current_state().name.clone(),
                sm.action_suggestion(),
                sm.warning_text(),
                sm.reasoning(),
                copy_strings(sm.matched_keywords()),
            ),
            None => (
                FraudType::Brushing,
                String::from_str("初始"),
                ActionSuggestion::NoAction,
                String::new(),
                String::new(),
                Vec::new(),
            ),
        };
        let kind = if fraud_score > 0 { Some(fraud_type) } else { None };
        let assessment = RiskScorer::assess(
            fraud_score,
            kind,
            fraud_action,
            fraud_warning,
            items.as_slice(),
            fraud_reasoning,
        );
        let result = ScanResult {
            risk_score: assessment.risk_score,
            risk_level: String::from_str(assessment.risk_level.as_str()),
            fraud_type: match assessment.fraud_type {
                Some(t) => Some(String::from_str(t.name())),
                None => None,
            },
            fraud_type_id: match assessment.fraud_type {
                Some(t) => Some(String::from_str(t.id())),
                None => None,
            },
            current_state: if fraud_score > 0 { Some(state_name) } else { None },
            matched_keywords,
            action_suggestion: String::from_str(assessment.action_suggestion.as_str()),
            warning_text: assessment.warning_text,
            reasoning: Some(assessment.reasoning),
        };
        assert(result@.matched_keywords =~= scan_outcome(self.detector(), texts).matched_keywords);
        assert(result@ =~= scan_outcome(self.detector(), texts));
        Some(result)
    }

    /// The sensitive data in `text`, as reported to a client; `None` when
    /// detection cannot run on it.
    pub fn detect_sensitive(&self, text: &str) -> (r: Option<SensitiveResult>)
        ensures
            r is Some <==> detection_defined(self.detector(), text@),
            r matches Some(res) ==> res@ == sensitive_outcome(detection(self.detector(), text@)),
    {
        let items = match self.sensitive_detector.detect(text) {
            Some(v) => v,
            None => {
                return None;
            },
        };
        let ghost iv = infos_view(items@);
        let mut out: Vec<SensitiveItem> = Vec::new();
        let mut i: usize = 0;
        while i < items.len()
            invariant
                i <= items.len(),
                iv == infos_view(items@),
                out@.map_values(|s: SensitiveItem| s@) == sensitive_outcome(iv.subrange(0, i as int)).sensitive_items,
            decreases items.len() - i,
        {
            let s = &items[i];
            let ghost prev = out@;
            out.push(SensitiveItem {
                sensitive_type: String::from_str(s.sensitive_type.as_str()),
                value: s.value.clone(),
                position: s.position,
            });
            assert(out@.map_values(|s: SensitiveItem| s@) =~= prev.map_values(|s: SensitiveItem| s@).push(out@.last()@));
            assert(sensitive_outcome(iv.subrange(0, i as int + 1)).sensitive_items =~= sensitive_outcome(
                iv.subrange(0, i as int),
            ).sensitive_items.push(out@.last()@));
            i = i + 1;
        }
        assert(iv.subrange(0, iv.len() as int) =~= iv);
        let found = items.len() > 0;
        let res = SensitiveResult { found, sensitive_items: out };
        assert(res@ =~= sensitive_outcome(iv));
        Some(res)
    }

    /// Looks a URL up in the blacklist.
    pub fn check_url(&self, url: &str) -> (r: UrlCheckResult)
        ensures
            r.is_malicious == url_listed(self.threats().urls, url@),
            opt_view(r.threat_type) == (if r.is_malicious { Some("phishing"@) } else { None::<Seq<char>> }),
            r.source@ == "local_blacklist"@,
    {
        let result = self.threat_checker.check_url(url);
        UrlCheckResult { is_malicious: result.is_malicious, threat_type: result.threat_type, source: result.source }
    }

    /// Looks an app name up in the blacklist.
    pub fn check_app(&self, app_name: &str) -> (r: AppCheckResult)
        ensures
            r.is_dangerous == self.threats().apps.contains(lowercase(app_name@)),
            opt_view(r.risk_reason) == (if r.is_dangerous { Some("fraud_app"@) } else { None::<Seq<char>> }),
            r.source@ == "local_blacklist"@,
    {
        let result = self.threat_checker.check_app(app_name);
        AppCheckResult { is_dangerous: result.is_malicious, risk_reason: result.threat_type, source: result.source }
    }
}

/// The script kept by a scan has the highest risk score of all, and every
/// script before it scored strictly less; when none is kept, every script
/// is still at a score of zero.
pub proof fn lemma_best_is_highest(ms: Seq<MachineView>)
    ensures
        best_among(ms) matches Some(b) ==> {
            &&& 0 <= b < ms.len()
            &&& current(ms[b]).risk_score > 0
            &&& forall|k: int| 0 <= k < ms.len() ==> current(#[trigger] ms[k]).risk_score <= current(ms[b]).risk_score
            &&& forall|k: int| 0 <= k < b ==> current(#[trigger] ms[k]).risk_score < current(ms[b]).risk_score
        },
        best_among(ms) is None ==> forall|k: int| 0 <= k < ms.len() ==> current(#[trigger] ms[k]).risk_score == 0,
    decreases ms.len(),
{
    if ms.len() > 0 {
        let p = ms.drop_last();
        lemma_best_is_highest(p);
        assert forall|k: int| 0 <= k < p.len() implies #[trigger] ms[k] == p[k] by {}
    }
}


/// The built-in scripts come in the order of their identifiers, F001 to
/// F010; every one starts at a stage of score zero, and its scores rise
/// stage by stage up to at most 1.0.
pub proof fn lemma_builtin_scripts(k: int)
    requires
        0 <= k < 10,
    ensures
        builtin_definitions()[k].fraud_type == seq![
            FraudType::Brushing,
            FraudType::Investment,
            FraudType::FakeShopping,
            FraudType::FakeCustomer,
            FraudType::LoanCredit,
            FraudType::FakeLeader,
            FraudType::FakePolice,
            FraudType::Romance,
            FraudType::GameTrade,
            FraudType::FlightChange,
        ][k],
        builtin_definitions()[k].states.len() > 0,
        builtin_definitions()[k].states[0].risk_score == 0,
        scores_increase(builtin_definitions()[k].states),
        forall|i: int| 0 <= i < builtin_definitions()[k].states.len() ==> (
        #[trigger] builtin_definitions()[k].states[i]).risk_score <= 100,
{
    let d = builtin_definitions()[k];
    assert(d.states.last().risk_score == 100);
    assert(scores_increase(d.states)) by {
        lemma_brushing_scores_increase();
        lemma_investment_scores_increase();
        lemma_fake_shopping_scores_increase();
        lemma_fake_customer_scores_increase();
        lemma_loan_credit_scores_increase();
        lemma_fake_leader_scores_increase();
        lemma_fake_police_scores_increase();
        lemma_romance_scores_increase();
        lemma_game_trade_scores_increase();
        lemma_flight_change_scores_increase();
    }
    assert forall|i: int| 0 <= i < d.states.len() implies (#[trigger] d.states[i]).risk_score <= 100 by {
        if i < d.states.len() - 1 {
            assert(d.states[i].risk_score < d.states[d.states.len() - 1].risk_score);
        }
    }
}

/// Every built-in script, after any conversation, is well-formed and at a
/// score of at most 1.0.
pub proof fn lemma_finals_bounded(texts: Seq<Seq<char>>, k: int)
    requires
        0 <= k < 10,
    ensures
        machine_wf(finals(texts)[k]),
        finals(texts)[k].def == builtin_definitions()[k],
        current(finals(texts)[k]).risk_score <= 100,
{
    let d = builtin_definitions()[k];
    lemma_builtin_scripts(k);
    lemma_initial_machine_wf(d);
    lemma_run_moves_forward(initial_machine(d), texts);
}

/// A scan reports the highest risk: its score is at least the score every
/// built-in script reached on the conversation.
pub proof fn lemma_scan_reports_highest(d: SensitiveDetectorView, texts: Seq<Seq<char>>)
    ensures
        forall|k: int| 0 <= k < 10 ==> scan_outcome(d, texts).risk_score >= current(
            #[trigger] finals(texts)[k],
        ).risk_score,
{
    let ms = finals(texts);
    lemma_best_is_highest(ms);
    let best = best_machine(texts);
    let score = fraud_score(best);
    match best_among(ms) {
        Some(b) => {
            lemma_finals_bounded(texts, b);
        },
        None => {},
    }
    lemma_assessment_consistent(
        score,
        match best {
            Some(m) => if score > 0 { Some(m.def.fraud_type) } else { None },
            None => None,
        },
        match best {
            Some(m) => current(m).action_suggestion,
            None => ActionSuggestion::NoAction,
        },
        match best {
            Some(m) => current(m).warning_text,
            None => Seq::empty(),
        },
        detection(d, join(texts, " "@)),
        match best {
            Some(m) => reasoning_text(m),
            None => Seq::empty(),
        },
    );
}

/// When no built-in script leaves its first stage on a conversation, the
/// scan names no fraud kind and no current stage and lists no keywords; if
/// nothing sensitive is found either, the conversation is of no risk.
pub proof fn lemma_quiet_conversation(d: SensitiveDetectorView, texts: Seq<Seq<char>>)
    requires
        forall|k: int| 0 <= k < 10 ==> (#[trigger] finals(texts)[k]).current_index == 0,
    ensures
        scan_outcome(d, texts).fraud_type is None,
        scan_outcome(d, texts).current_state is None,
        scan_outcome(d, texts).matched_keywords.len() == 0,
        detection(d, join(texts, " "@)).len() == 0 ==> scan_outcome(d, texts).risk_level == "none"@
            && scan_outcome(d, texts).risk_score == 0,
{
    let ms = finals(texts);
    assert forall|k: int| 0 <= k < 10 implies current(#[trigger] ms[k]).risk_score == 0 by {
        lemma_builtin_scripts(k);
        lemma_finals_bounded(texts, k);
    }
    lemma_best_is_highest(ms);
    assert(best_among(ms) is None);
    let items = detection(d, join(texts, " "@));
    lemma_assessment_consistent(0, None, ActionSuggestion::NoAction, Seq::empty(), items, Seq::empty());
}


/// A scan reports the script with the highest risk after the conversation,
/// the first of them in the order F001 to F010 when several tie: when every
/// built-in script is still at a score of zero the scan names no fraud kind
/// and no stage; otherwise, for the first script `b` whose score is the
/// highest, the scan names its kind and identifier, its current stage and
/// its matched keywords, and scores at least as high. When nothing sensitive
/// is found and that score is past 0.1, the scan also keeps the stage's
/// score, warning and the script's path, and advises by the scoring tiers.
pub proof fn lemma_scan_follows_best_script(d: SensitiveDetectorView, texts: Seq<Seq<char>>, b: int)
    ensures
        (forall|k: int| 0 <= k < 10 ==> current(#[trigger] finals(texts)[k]).risk_score == 0) ==> {
            &&& scan_outcome(d, texts).fraud_type is None
            &&& scan_outcome(d, texts).fraud_type_id is None
            &&& scan_outcome(d, texts).current_state is None
        },
        ({
            let ms = finals(texts);
            &&& 0 <= b < 10
            &&& current(ms[b]).risk_score > 0
            &&& forall|k: int| 0 <= k < 10 ==> current(#[trigger] ms[k]).risk_score <= current(ms[b]).risk_score
            &&& forall|k: int| 0 <= k < b ==> current(#[trigger] ms[k]).risk_score < current(ms[b]).risk_score
        }) ==> {
            let m = finals(texts)[b];
            &&& m.def == builtin_definitions()[b]
            &&& scan_outcome(d, texts).fraud_type == Some(m.def.fraud_type.name_spec())
            &&& scan_outcome(d, texts).fraud_type_id == Some(m.def.fraud_type.id_spec())
            &&& scan_outcome(d, texts).current_state == Some(current(m).name)
            &&& scan_outcome(d, texts).matched_keywords == m.matched_keywords
            &&& scan_outcome(d, texts).risk_score >= current(m).risk_score
            &&& (detection(d, join(texts, " "@)).len() == 0 && current(m).risk_score > 10) ==> {
                &&& scan_outcome(d, texts).risk_score == current(m).risk_score
                &&& scan_outcome(d, texts).warning_text == current(m).warning_text
                &&& scan_outcome(d, texts).reasoning == Some(reasoning_text(m))
                &&& scan_outcome(d, texts).action_suggestion == (if current(m).risk_score > 60 {
                    current(m).action_suggestion.as_str_spec()
                } else if current(m).risk_score > 30 {
                    "warn"@
                } else {
                    "monitor"@
                })
            }
        },
{
    let ms = finals(texts);
    lemma_best_is_highest(ms);
    let best = best_machine(texts);
    let score = fraud_score(best);
    match best_among(ms) {
        Some(c) => {
            lemma_finals_bounded(texts, c);
        },
        None => {},
    }
    let a = lemma_assessment_consistent(
        score,
        match best {
            Some(m) => if score > 0 { Some(m.def.fraud_type) } else { None },
            None => None,
        },
        match best {
            Some(m) => current(m).action_suggestion,
            None => ActionSuggestion::NoAction,
        },
        match best {
            Some(m) => current(m).warning_text,
            None => Seq::empty(),
        },
        detection(d, join(texts, " "@)),
        match best {
            Some(m) => reasoning_text(m),
            None => Seq::empty(),
        },
    );
    if 0 <= b < 10 && current(ms[b]).risk_score > 0 && (forall|k: int| 0 <= k < 10 ==> current(
        #[trigger] ms[k],
    ).risk_score <= current(ms[b]).risk_score) && (forall|k: int| 0 <= k < b ==> current(
        #[trigger] ms[k],
    ).risk_score < current(ms[b]).risk_score) {
        lemma_finals_bounded(texts, b);
        match best_among(ms) {
            Some(c) => {
                if c < b {
                    assert(current(ms[c]).risk_score < current(ms[b]).risk_score);
                } else if c > b {
                    assert(current(ms[b]).risk_score < current(ms[c]).risk_score);
                }
                assert(c == b);
                let items = detection(d, join(texts, " "@));
                if items.len() == 0 && current(ms[b]).risk_score > 10 {
                    assert(!has_type(items, SensitiveType::VerificationCode));
                    assert(!has_type(items, SensitiveType::PayPassword));
                    assert(!has_type(items, SensitiveType::BankCard));
                    assert(!has_type(items, SensitiveType::IdCard));
                    assert(a.warning_text == current(ms[b]).warning_text);
                    assert(scan_outcome(d, texts).warning_text == current(ms[b]).warning_text);
                    assert(scan_outcome(d, texts).risk_score == current(ms[b]).risk_score);
                    reveal_strlit("话术状态机路径: ");
                    assert(reasoning_text(ms[b]).len() > 0);
                    assert(scan_outcome(d, texts).reasoning == Some(reasoning_text(ms[b])));
                    assert(scan_outcome(d, texts).action_suggestion == a.action_suggestion.as_str_spec());
                }
            },
            None => {
                assert(current(ms[b]).risk_score == 0);
            },
        }
    }
}

} // verus!
