use vstd::prelude::*;
use vstd::string::*;
use crate::utils::text::{strings_view, copy_strings};
use crate::detectors::state_machine::{
    ActionSuggestion, FraudState, FraudStateMachineDef, FraudStateMachineDefView, FraudStateView, FraudType,
    StateTransition, StateTransitionView,
};

verus! {

/// The version record of a rule set.
#[derive(Debug, Clone)]
pub struct RulesVersion {
    pub version: String,
    pub update_notes: String,
}

/// A file of fraud scripts.
#[derive(Debug, Clone)]
pub struct FraudRuleFile {
    pub version: String,
    pub fraud_types: Vec<FraudRuleEntry>,
}

/// One fraud script as written in a rule file.
#[derive(Debug, Clone)]
pub struct FraudRuleEntry {
    pub fraud_type_id: String,
    pub fraud_type_name: String,
    pub states: Vec<FraudStateEntry>,
    pub transitions: Vec<TransitionEntry>,
}

/// One stage as written in a rule file; `risk_score` is in hundredths.
#[derive(Debug, Clone)]
pub struct FraudStateEntry {
    pub id: String,
    pub name: String,
    pub risk_score: u32,
    pub action_suggestion: String,
    pub warning_text: String,
}

/// One transition as written in a rule file.
#[derive(Debug, Clone)]
pub struct TransitionEntry {
    pub from_state: String,
    pub to_state: String,
    pub trigger_keywords: Vec<String>,
}

/// A file of sensitive-data patterns.
#[derive(Debug, Clone)]
pub struct SensitivePatternFile {
    pub version: String,
    pub patterns: Vec<SensitivePatternEntry>,
}

/// One sensitive-data pattern with the words that must surround it.
#[derive(Debug, Clone)]
pub struct SensitivePatternEntry {
    pub name: String,
    pub regex: String,
    pub context_keywords: Vec<String>,
}

/// A file of blacklisted items.
#[derive(Debug, Clone)]
pub struct BlacklistFile {
    pub version: String,
    pub items: Vec<String>,
}

/// Why a rule file could not be loaded.
#[derive(Debug)]
pub enum RuleLoadError {
    FileNotFound(String),
    ReadError(String),
    ParseError(String),
}

impl RuleLoadError {
    /// The text that introduces each kind of error.
    pub open spec fn prefix_spec(&self) -> Seq<char> {
        match self {
            RuleLoadError::FileNotFound(_) => "规则文件不存在: "@,
            RuleLoadError::ReadError(_) => "规则文件读取失败: "@,
            RuleLoadError::ParseError(_) => "规则文件解析失败: "@,
        }
    }

    /// The detail the error carries.
    pub open spec fn detail_spec(&self) -> Seq<char> {
        match self {
            RuleLoadError::FileNotFound(d) => d@,
            RuleLoadError::ReadError(d) => d@,
            RuleLoadError::ParseError(d) => d@,
        }
    }

    /// The error as a message: its kind, then its detail.
    pub fn message(&self) -> (m: String)
        ensures
            m@ == self.prefix_spec() + self.detail_spec(),
    {
        let (prefix, detail) = match self {
            RuleLoadError::FileNotFound(d) => ("规则文件不存在: ", d),
            RuleLoadError::ReadError(d) => ("规则文件读取失败: ", d),
            RuleLoadError::ParseError(d) => ("规则文件解析失败: ", d),
        };
        let mut m = String::from_str(prefix);
        m.append(detail.as_str());
        m
    }
}

/// The mathematical value of a `FraudStateEntry`.
#[verifier::ext_equal]
pub struct FraudStateEntryView {
    pub id: Seq<char>,
    pub name: Seq<char>,
    pub risk_score: u32,
    pub action_suggestion: Seq<char>,
    pub warning_text: Seq<char>,
}

/// The mathematical value of a `TransitionEntry`.
#[verifier::ext_equal]
pub struct TransitionEntryView {
    pub from_state: Seq<char>,
    pub to_state: Seq<char>,
    pub trigger_keywords: Seq<Seq<char>>,
}

/// The mathematical value of a `FraudRuleEntry`.
#[verifier::ext_equal]
pub struct FraudRuleEntryView {
    pub fraud_type_id: Seq<char>,
    pub fraud_type_name: Seq<char>,
    pub states: Seq<FraudStateEntryView>,
    pub transitions: Seq<TransitionEntryView>,
}

impl View for FraudStateEntry {
    type V = FraudStateEntryView;

    open spec fn view(&self) -> FraudStateEntryView {
        FraudStateEntryView {
            id: self.id@,
            name: self.name@,
            risk_score: self.risk_score,
            action_suggestion: self.action_suggestion@,
            warning_text: self.warning_text@,
        }
    }
}

impl View for TransitionEntry {
    type V = TransitionEntryView;

    open spec fn view(&self) -> TransitionEntryView {
        TransitionEntryView {
            from_state: self.from_state@,
            to_state: self.to_state@,
            trigger_keywords: strings_view(self.trigger_keywords@),
        }
    }
}

impl View for FraudRuleEntry {
    type V = FraudRuleEntryView;

    open spec fn view(&self) -> FraudRuleEntryView {
        FraudRuleEntryView {
            fraud_type_id: self.fraud_type_id@,
            fraud_type_name: self.fraud_type_name@,
            states: self.states@.map_values(|s: FraudStateEntry| s@),
            transitions: self.transitions@.map_values(|t: TransitionEntry| t@),
        }
    }
}

/// The advice named by `s`: `monitor`, `warn` and `block` name theirs;
/// anything else, `none` included, means no action.
pub open spec fn action_from_text(s: Seq<char>) -> ActionSuggestion {
    if s == "monitor"@ {
        ActionSuggestion::Monitor
    } else if s == "warn"@ {
        ActionSuggestion::Warn
    } else if s == "block"@ {
        ActionSuggestion::Block
    } else {
        ActionSuggestion::NoAction
    }
}

/// The fraud kind whose rule identifier is `id`, if any.
pub open spec fn fraud_type_with_id(id: Seq<char>) -> Option<FraudType> {
    if id == FraudType::Brushing.id_spec() {
        Some(FraudType::Brushing)
    } else if id == FraudType::Investment.id_spec() {
        Some(FraudType::Investment)
    } else if id == FraudType::FakeShopping.id_spec() {
        Some(FraudType::FakeShopping)
    } else if id == FraudType::FakeCustomer.id_spec() {
        Some(FraudType::FakeCustomer)
    } else if id == FraudType::LoanCredit.id_spec() {
        Some(FraudType::LoanCredit)
    } else if id == FraudType::FakeLeader.id_spec() {
        Some(FraudType::FakeLeader)
    } else if id == FraudType::FakePolice.id_spec() {
        Some(FraudType::FakePolice)
    } else if id == FraudType::Romance.id_spec() {
        Some(FraudType::Romance)
    } else if id == FraudType::GameTrade.id_spec() {
        Some(FraudType::GameTrade)
    } else if id == FraudType::FlightChange.id_spec() {
        Some(FraudType::FlightChange)
    } else {
        None
    }
}

/// A stage of a script, read from its entry.
pub open spec fn state_from_entry(s: FraudStateEntryView) -> FraudStateView {
    FraudStateView {
        id: s.id,
        name: s.name,
        risk_score: s.risk_score,
        action_suggestion: action_from_text(s.action_suggestion),
        warning_text: s.warning_text,
    }
}

/// A transition of a script, read from its entry.
pub open spec fn transition_from_entry(t: TransitionEntryView) -> StateTransitionView {
    StateTransitionView { from_state: t.from_state, to_state: t.to_state, trigger_keywords: t.trigger_keywords }
}

/// The script a rule entry describes, when its identifier names a fraud
/// kind; its stages and transitions in the entry's order.
pub open spec fn rule_definition(e: FraudRuleEntryView) -> Option<FraudStateMachineDefView> {
    match fraud_type_with_id(e.fraud_type_id) {
        Some(k) => Some(
            FraudStateMachineDefView {
                fraud_type: k,
                states: e.states.map_values(|s: FraudStateEntryView| state_from_entry(s)),
                transitions: e.transitions.map_values(|t: TransitionEntryView| transition_from_entry(t)),
            },
        ),
        None => None,
    }
}

/// Whether two string slices hold the same text.
fn same_text(a: &str, b: &str) -> (r: bool)
    ensures
        r == (a@ == b@),
{
    String::from_str(a) == String::from_str(b)
}

/// The advice named by `s`.
pub fn parse_action_suggestion(s: &str) -> (a: ActionSuggestion)
    ensures
        a == action_from_text(s@),
{
    proof {
        reveal_strlit("none");
        reveal_strlit("monitor");
        reveal_strlit("warn");
        reveal_strlit("block");
        assert("none"@[0] != "monitor"@[0]);
        assert("none"@[0] != "warn"@[0]);
        assert("none"@[0] != "block"@[0]);
    }
    if same_text(s, "none") {
        ActionSuggestion::NoAction
    } else if same_text(s, "monitor") {
        ActionSuggestion::Monitor
    } else if same_text(s, "warn") {
        ActionSuggestion::Warn
    } else if same_text(s, "block") {
        ActionSuggestion::Block
    } else {
        ActionSuggestion::NoAction
    }
}

/// The fraud kind whose rule identifier is `id`, `F001` to `F010`.
pub fn parse_fraud_type(id: &str) -> (t: Option<FraudType>)
    ensures
        t == fraud_type_with_id(id@),
{
    let kinds: [FraudType; 10] = [
        FraudType::Brushing,
        FraudType::Investment,
        FraudType::FakeShopping,
        FraudType::FakeCustomer,
        FraudType::LoanCredit,
        FraudType::FakeLeader,
        FraudType::FakePolice,
        FraudType::Romance,
        FraudType::GameTrade,
        FraudType::FlightChange,
    ];
    let mut i: usize = 0;
    while i < 10
        invariant
            i <= 10,
            kinds@ == seq![
                FraudType::Brushing,
                FraudType::Investment,
                FraudType::FakeShopping,
                FraudType::FakeCustomer,
                FraudType::LoanCredit,
                FraudType::FakeLeader,
                FraudType::FakePolice,
                FraudType::Romance,
                FraudType::GameTrade,
                FraudType::FlightChange,
            ],
            forall|j: int| 0 <= j < i ==> id@ != #[trigger] kinds@[j].id_spec(),
        decreases 10 - i,
    {
        let k = kinds[i];
        if same_text(id, k.id()) {
            return Some(k);
        }
        i = i + 1;
    }
    assert(id@ != kinds@[9].id_spec());
    None
}

/// The script a rule entry describes; `None` when its identifier names no
/// fraud kind.
pub fn convert_rule_to_definition(entry: &FraudRuleEntry) -> (d: Option<FraudStateMachineDef>)
    ensures
        d matches Some(def) ==> rule_definition(entry@) == Some(def@),
        d is None <==> rule_definition(entry@) is None,
{
    let fraud_type = match parse_fraud_type(entry.fraud_type_id.as_str()) {
        Some(k) => k,
        None => {
            return None;
        },
    };
    let mut states: Vec<FraudState> = Vec::new();
    let mut i: usize = 0;
    while i < entry.states.len()
        invariant
            i <= entry.states.len(),
            states.len() == i,
            forall|j: int| 0 <= j < i ==> #[trigger] states@[j]@ == state_from_entry(entry.states@[j]@),
        decreases entry.states.len() - i,
    {
        let s = &entry.states[i];
        states.push(FraudState {
            id: s.id.clone(),
            name: s.name.clone(),
            risk_score: s.risk_score,
            action_suggestion: parse_action_suggestion(s.action_suggestion.as_str()),
            warning_text: s.warning_text.clone(),
        });
        i = i + 1;
    }
    let mut transitions: Vec<StateTransition> = Vec::new();
    let mut i: usize = 0;
    while i < entry.transitions.len()
        invariant
            i <= entry.transitions.len(),
            transitions.len() == i,
            forall|j: int| 0 <= j < i ==> #[trigger] transitions@[j]@ == transition_from_entry(entry.transitions@[j]@),
        decreases entry.transitions.len() - i,
    {
        let t = &entry.transitions[i];
        transitions.push(StateTransition {
            from_state: t.from_state.clone(),
            to_state: t.to_state.clone(),
            trigger_keywords: copy_strings(t.trigger_keywords.as_slice()),
        });
        i = i + 1;
    }
    let def = FraudStateMachineDef { fraud_type, states, transitions };
    assert(def@.states =~= entry@.states.map_values(|s: FraudStateEntryView| state_from_entry(s)));
    assert(def@.transitions =~= entry@.transitions.map_values(|t: TransitionEntryView| transition_from_entry(t)));
    Some(def)
}


/// Reading an advice's own name gives the advice back.
pub proof fn lemma_action_text_round_trip(a: ActionSuggestion)
    ensures
        action_from_text(a.as_str_spec()) == a,
{
    reveal_strlit("none");
    reveal_strlit("monitor");
    reveal_strlit("warn");
    reveal_strlit("block");
    assert("none"@[0] != "monitor"@[0]);
    assert("none"@[0] != "warn"@[0]);
    assert("none"@[0] != "block"@[0]);
}

/// Reading a fraud kind's own identifier gives the kind back, and an
/// identifier that reads as a kind is that kind's identifier.
pub proof fn lemma_fraud_type_id_round_trip(t: FraudType, id: Seq<char>)
    ensures
        fraud_type_with_id(t.id_spec()) == Some(t),
        fraud_type_with_id(id) matches Some(u) ==> u.id_spec() == id,
{
    reveal_strlit("F001");
    reveal_strlit("F002");
    reveal_strlit("F003");
    reveal_strlit("F004");
    reveal_strlit("F005");
    reveal_strlit("F006");
    reveal_strlit("F007");
    reveal_strlit("F008");
    reveal_strlit("F009");
    reveal_strlit("F010");
    assert("F001"@[2] == '0' && "F001"@[3] == '1');
    assert("F002"@[2] == '0' && "F002"@[3] == '2');
    assert("F003"@[2] == '0' && "F003"@[3] == '3');
    assert("F004"@[2] == '0' && "F004"@[3] == '4');
    assert("F005"@[2] == '0' && "F005"@[3] == '5');
    assert("F006"@[2] == '0' && "F006"@[3] == '6');
    assert("F007"@[2] == '0' && "F007"@[3] == '7');
    assert("F008"@[2] == '0' && "F008"@[3] == '8');
    assert("F009"@[2] == '0' && "F009"@[3] == '9');
    assert("F010"@[2] == '1' && "F010"@[3] == '0');
}


/// Converting a rule entry keeps everything the entry says: it succeeds
/// exactly when the entry's identifier is that of some fraud kind, and then
/// the script is of that kind, and each stage and each transition is the
/// entry's, in the same order, with the same identifiers, names, scores,
/// warnings, endpoints and keywords; a stage's advice is the one its text
/// names, or none when the text names no advice.
pub proof fn lemma_rule_definition_keeps_entry(e: FraudRuleEntryView)
    ensures
        rule_definition(e) is Some <==> exists|t: FraudType| t.id_spec() == e.fraud_type_id,
        rule_definition(e) matches Some(d) ==> {
            &&& d.fraud_type.id_spec() == e.fraud_type_id
            &&& d.states.len() == e.states.len()
            &&& forall|j: int|
                0 <= j < e.states.len() ==> {
                    &&& (#[trigger] d.states[j]).id == e.states[j].id
                    &&& d.states[j].name == e.states[j].name
                    &&& d.states[j].risk_score == e.states[j].risk_score
                    &&& d.states[j].warning_text == e.states[j].warning_text
                    &&& (exists|a: ActionSuggestion| a.as_str_spec() == e.states[j].action_suggestion)
                        ==> d.states[j].action_suggestion.as_str_spec() == e.states[j].action_suggestion
                    &&& (forall|a: ActionSuggestion| a.as_str_spec() != e.states[j].action_suggestion)
                        ==> d.states[j].action_suggestion == ActionSuggestion::NoAction
                }
            &&& d.transitions.len() == e.transitions.len()
            &&& forall|j: int|
                0 <= j < e.transitions.len() ==> {
                    &&& (#[trigger] d.transitions[j]).from_state == e.transitions[j].from_state
                    &&& d.transitions[j].to_state == e.transitions[j].to_state
                    &&& d.transitions[j].trigger_keywords == e.transitions[j].trigger_keywords
                }
        },
{
    lemma_fraud_type_id_round_trip(FraudType::Brushing, e.fraud_type_id);
    if exists|t: FraudType| t.id_spec() == e.fraud_type_id {
        let t = choose|t: FraudType| t.id_spec() == e.fraud_type_id;
        lemma_fraud_type_id_round_trip(t, e.fraud_type_id);
    }
    match rule_definition(e) {
        Some(d) => {
            assert forall|j: int| 0 <= j < e.states.len() implies {
                &&& (exists|a: ActionSuggestion| a.as_str_spec() == e.states[j].action_suggestion)
                    ==> d.states[j].action_suggestion.as_str_spec() == e.states[j].action_suggestion
                &&& (forall|a: ActionSuggestion| a.as_str_spec() != e.states[j].action_suggestion)
                    ==> d.states[j].action_suggestion == ActionSuggestion::NoAction
            } by {
                let text = e.states[j].action_suggestion;
                assert(d.states[j].action_suggestion == action_from_text(text));
                if exists|a: ActionSuggestion| a.as_str_spec() == text {
                    let a = choose|a: ActionSuggestion| a.as_str_spec() == text;
                    lemma_action_text_round_trip(a);
                }
                lemma_action_text_round_trip(ActionSuggestion::Monitor);
                lemma_action_text_round_trip(ActionSuggestion::Warn);
                lemma_action_text_round_trip(ActionSuggestion::Block);
                assert(ActionSuggestion::Monitor.as_str_spec() == "monitor"@);
                assert(ActionSuggestion::Warn.as_str_spec() == "warn"@);
                assert(ActionSuggestion::Block.as_str_spec() == "block"@);
            }
        },
        None => {},
    }
}

} // verus!
