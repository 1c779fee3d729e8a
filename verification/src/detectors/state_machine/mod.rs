pub mod brushing;
pub mod fake_customer;
pub mod fake_leader;
pub mod fake_police;
pub mod fake_shopping;
pub mod flight_change;
pub mod game_trade;
pub mod investment;
pub mod loan_credit;
pub mod romance;
pub mod properties;

use vstd::prelude::*;
use vstd::string::*;
use crate::utils::text::{lowercase, contains_seq, to_lowercase, str_contains, join, lemma_join_step, strings_view, strs_view};

verus! {

/// The ten kinds of telecom fraud that the library follows.
#[derive(Debug, Clone, Copy, PartialEq, Eq, Hash, Structural)]
pub enum FraudType {
    Brushing,
    Investment,
    FakeShopping,
    FakeCustomer,
    LoanCredit,
    FakeLeader,
    FakePolice,
    Romance,
    GameTrade,
    FlightChange,
}

/// How alarming an assessment is, from nothing to critical.
#[derive(Debug, Clone, Copy, PartialEq, Eq, Hash, Structural)]
pub enum AlertLevel {
    NoRisk,
    Low,
    Medium,
    High,
    Critical,
}

/// What the caller is advised to do with the conversation.
#[derive(Debug, Clone, Copy, PartialEq, Eq, Hash, Structural)]
pub enum ActionSuggestion {
    NoAction,
    Monitor,
    Warn,
    Block,
}

impl FraudType {
    /// The rule identifier, `F001` to `F010`.
    pub open spec fn id_spec(self) -> Seq<char> {
        match self {
            FraudType::Brushing => "F001"@,
            FraudType::Investment => "F002"@,
            FraudType::FakeShopping => "F003"@,
            FraudType::FakeCustomer => "F004"@,
            FraudType::LoanCredit => "F005"@,
            FraudType::FakeLeader => "F006"@,
            FraudType::FakePolice => "F007"@,
            FraudType::Romance => "F008"@,
            FraudType::GameTrade => "F009"@,
            FraudType::FlightChange => "F010"@,
        }
    }

    /// The display name of the fraud kind.
    pub open spec fn name_spec(self) -> Seq<char> {
        match self {
            FraudType::Brushing => "刷单返利"@,
            FraudType::Investment => "虚假投资理财"@,
            FraudType::FakeShopping => "虚假购物服务"@,
            FraudType::FakeCustomer => "冒充电商客服"@,
            FraudType::LoanCredit => "贷款征信"@,
            FraudType::FakeLeader => "冒充领导熟人"@,
            FraudType::FakePolice => "冒充公检法"@,
            FraudType::Romance => "婚恋交友(杀猪盘)"@,
            FraudType::GameTrade => "游戏虚假交易"@,
            FraudType::FlightChange => "机票退改签"@,
        }
    }

    pub fn id(&self) -> (s: &'static str)
        ensures
            s@ == self.id_spec(),
    {
        match self {
            FraudType::Brushing => "F001",
            FraudType::Investment => "F002",
            FraudType::FakeShopping => "F003",
            FraudType::FakeCustomer => "F004",
            FraudType::LoanCredit => "F005",
            FraudType::FakeLeader => "F006",
            FraudType::FakePolice => "F007",
            FraudType::Romance => "F008",
            FraudType::GameTrade => "F009",
            FraudType::FlightChange => "F010",
        }
    }

    pub fn name(&self) -> (s: &'static str)
        ensures
            s@ == self.name_spec(),
    {
        match self {
            FraudType::Brushing => "刷单返利",
            FraudType::Investment => "虚假投资理财",
            FraudType::FakeShopping => "虚假购物服务",
            FraudType::FakeCustomer => "冒充电商客服",
            FraudType::LoanCredit => "贷款征信",
            FraudType::FakeLeader => "冒充领导熟人",
            FraudType::FakePolice => "冒充公检法",
            FraudType::Romance => "婚恋交友(杀猪盘)",
            FraudType::GameTrade => "游戏虚假交易",
            FraudType::FlightChange => "机票退改签",
        }
    }
}

impl AlertLevel {
    pub open spec fn as_str_spec(self) -> Seq<char> {
        match self {
            AlertLevel::NoRisk => "none"@,
            AlertLevel::Low => "low"@,
            AlertLevel::Medium => "medium"@,
            AlertLevel::High => "high"@,
            AlertLevel::Critical => "critical"@,
        }
    }

    pub fn as_str(&self) -> (s: &'static str)
        ensures
            s@ == self.as_str_spec(),
    {
        match self {
            AlertLevel::NoRisk => "none",
            AlertLevel::Low => "low",
            AlertLevel::Medium => "medium",
            AlertLevel::High => "high",
            AlertLevel::Critical => "critical",
        }
    }
}

impl ActionSuggestion {
    pub open spec fn as_str_spec(self) -> Seq<char> {
        match self {
            ActionSuggestion::NoAction => "none"@,
            ActionSuggestion::Monitor => "monitor"@,
            ActionSuggestion::Warn => "warn"@,
            ActionSuggestion::Block => "block"@,
        }
    }

    pub fn as_str(&self) -> (s: &'static str)
        ensures
            s@ == self.as_str_spec(),
    {
        match self {
            ActionSuggestion::NoAction => "none",
            ActionSuggestion::Monitor => "monitor",
            ActionSuggestion::Warn => "warn",
            ActionSuggestion::Block => "block",
        }
    }
}

/// One stage of a fraud script. `risk_score` is in hundredths (0 to 100).
#[derive(Debug, Clone)]
pub struct FraudState {
    pub id: String,
    pub name: String,
    pub risk_score: u32,
    pub action_suggestion: ActionSuggestion,
    pub warning_text: String,
}

/// An edge between two stages: it fires when the text holds one of the
/// trigger keywords.
#[derive(Debug, Clone)]
pub struct StateTransition {
    pub from_state: String,
    pub to_state: String,
    pub trigger_keywords: Vec<String>,
}

/// A fraud script: its kind, its stages in order, and its transitions.
#[derive(Debug, Clone)]
pub struct FraudStateMachineDef {
    pub fraud_type: FraudType,
    pub states: Vec<FraudState>,
    pub transitions: Vec<StateTransition>,
}

/// The mathematical value of a `FraudState`.
#[verifier::ext_equal]
pub struct FraudStateView {
    pub id: Seq<char>,
    pub name: Seq<char>,
    pub risk_score: u32,
    pub action_suggestion: ActionSuggestion,
    pub warning_text: Seq<char>,
}

/// The mathematical value of a `StateTransition`.
#[verifier::ext_equal]
pub struct StateTransitionView {
    pub from_state: Seq<char>,
    pub to_state: Seq<char>,
    pub trigger_keywords: Seq<Seq<char>>,
}

/// The mathematical value of a `FraudStateMachineDef`.
#[verifier::ext_equal]
pub struct FraudStateMachineDefView {
    pub fraud_type: FraudType,
    pub states: Seq<FraudStateView>,
    pub transitions: Seq<StateTransitionView>,
}

impl View for FraudState {
    type V = FraudStateView;

    open spec fn view(&self) -> FraudStateView {
        FraudStateView {
            id: self.id@,
            name: self.name@,
            risk_score: self.risk_score,
            action_suggestion: self.action_suggestion,
            warning_text: self.warning_text@,
        }
    }
}

impl View for StateTransition {
    type V = StateTransitionView;

    open spec fn view(&self) -> StateTransitionView {
        StateTransitionView {
            from_state: self.from_state@,
            to_state: self.to_state@,
            trigger_keywords: strings_view(self.trigger_keywords@),
        }
    }
}

impl View for FraudStateMachineDef {
    type V = FraudStateMachineDefView;

    open spec fn view(&self) -> FraudStateMachineDefView {
        FraudStateMachineDefView {
            fraud_type: self.fraud_type,
            states: self.states@.map_values(|s: FraudState| s@),
            transitions: self.transitions@.map_values(|t: StateTransition| t@),
        }
    }
}

/// The keywords of `keywords`, in order, that occur in `text`, compared in
/// lowercase.
pub open spec fn keywords_found(text: Seq<char>, keywords: Seq<Seq<char>>) -> Seq<Seq<char>>
    decreases keywords.len(),
{
    if keywords.len() == 0 {
        Seq::empty()
    } else {
        let found = keywords_found(text, keywords.drop_last());
        if contains_seq(lowercase(text), lowercase(keywords.last())) {
            found.push(keywords.last())
        } else {
            found
        }
    }
}

/// The first stage at or after `k` whose identifier is `id`.
pub open spec fn position_from(states: Seq<FraudStateView>, id: Seq<char>, k: int) -> Option<int>
    decreases states.len() - k,
{
    if k < 0 || k >= states.len() {
        None
    } else if states[k].id == id {
        Some(k)
    } else {
        position_from(states, id, k + 1)
    }
}

/// The first stage whose identifier is `id`.
pub open spec fn state_position(states: Seq<FraudStateView>, id: Seq<char>) -> Option<int> {
    position_from(states, id, 0)
}

/// Transition `t` fires from stage `idx` on `text`: it leaves that stage's
/// identifier, one of its keywords occurs in the text, and it leads to a
/// later stage.
pub open spec fn fires(def: FraudStateMachineDefView, idx: int, text: Seq<char>, t: StateTransitionView) -> bool {
    &&& t.from_state == def.states[idx].id
    &&& keywords_found(text, t.trigger_keywords).len() > 0
    &&& state_position(def.states, t.to_state) matches Some(n)
    &&& n > idx
}

/// The first transition at or after `k` that fires.
pub open spec fn first_firing(def: FraudStateMachineDefView, idx: int, text: Seq<char>, k: int) -> Option<int>
    decreases def.transitions.len() - k,
{
    if k < 0 || k >= def.transitions.len() {
        None
    } else if fires(def, idx, text, def.transitions[k]) {
        Some(k)
    } else {
        first_firing(def, idx, text, k + 1)
    }
}

/// The abstract state of a running fraud-script machine.
pub struct MachineView {
    pub def: FraudStateMachineDefView,
    pub current_index: int,
    pub matched_keywords: Seq<Seq<char>>,
    pub state_history: Seq<int>,
}

/// A machine at the start of its script.
pub open spec fn initial_machine(def: FraudStateMachineDefView) -> MachineView {
    MachineView {
        def: def,
        current_index: 0,
        matched_keywords: Seq::empty(),
        state_history: seq![0int],
    }
}

/// The machine after reading one message, and whether it moved: the first
/// transition that fires moves it to the later stage, records the keywords
/// that triggered it and extends the path; if none fires, nothing changes.
pub open spec fn step(m: MachineView, text: Seq<char>) -> (MachineView, bool) {
    match first_firing(m.def, m.current_index, text, 0) {
        Some(k) => {
            let t = m.def.transitions[k];
            let n = state_position(m.def.states, t.to_state).unwrap();
            (
                MachineView {
                    def: m.def,
                    current_index: n,
                    matched_keywords: m.matched_keywords + keywords_found(text, t.trigger_keywords),
                    state_history: m.state_history.push(n),
                },
                true,
            )
        },
        None => (m, false),
    }
}

/// The machine after reading each of `texts` in order.
pub open spec fn run(m: MachineView, texts: Seq<Seq<char>>) -> MachineView
    decreases texts.len(),
{
    if texts.len() == 0 {
        m
    } else {
        step(run(m, texts.drop_last()), texts.last()).0
    }
}

/// The label of a stage in a path: `id(name)`.
pub open spec fn state_label(s: FraudStateView) -> Seq<char> {
    s.id + "("@ + s.name + ")"@
}

/// The explanation of a machine's state: the fraud kind's name, then the
/// path of stages it went through joined by arrows.
pub open spec fn reasoning_text(m: MachineView) -> Seq<char> {
    m.def.fraud_type.name_spec() + "话术状态机路径: "@ + join(
        m.state_history.map_values(|i: int| state_label(m.def.states[i])),
        " → "@,
    )
}

/// The well-formedness of a machine: its stage is a stage of its script,
/// and its path starts at the first stage, climbs strictly and ends at the
/// current stage.
pub open spec fn machine_wf(m: MachineView) -> bool {
    &&& 0 <= m.current_index < m.def.states.len()
    &&& m.state_history.len() > 0
    &&& m.state_history[0] == 0
    &&& m.state_history.last() == m.current_index
    &&& forall|i: int, j: int| 0 <= i < j < m.state_history.len() ==> m.state_history[i] < m.state_history[j]
    &&& forall|i: int| 0 <= i < m.state_history.len() ==> 0 <= #[trigger] m.state_history[i] < m.def.states.len()
}

/// The operations every fraud-script machine offers. Each is stated over the
/// machine's abstract state `machine()`, on well-formed machines.
pub trait FraudStateMachine {
    /// The abstract state of the machine.
    spec fn machine(&self) -> MachineView;

    /// The kind of fraud the script describes.
    fn fraud_type(&self) -> (t: FraudType)
        requires
            machine_wf(self.machine()),
        ensures
            t == self.machine().def.fraud_type,
    ;

    /// The stage the conversation has reached.
    fn current_state(&self) -> (s: &FraudState)
        requires
            machine_wf(self.machine()),
        ensures
            s@ == self.machine().def.states[self.machine().current_index],
    ;

    /// The position of the current stage in the script.
    fn current_state_index(&self) -> (i: usize)
        requires
            machine_wf(self.machine()),
        ensures
            i == self.machine().current_index,
    ;

    /// The risk score of the current stage, in hundredths.
    fn risk_score(&self) -> (r: u32)
        requires
            machine_wf(self.machine()),
        ensures
            r == self.machine().def.states[self.machine().current_index].risk_score,
    ;

    /// The advice attached to the current stage.
    fn action_suggestion(&self) -> (a: ActionSuggestion)
        requires
            machine_wf(self.machine()),
        ensures
            a == self.machine().def.states[self.machine().current_index].action_suggestion,
    ;

    /// The warning attached to the current stage.
    fn warning_text(&self) -> (w: String)
        requires
            machine_wf(self.machine()),
        ensures
            w@ == self.machine().def.states[self.machine().current_index].warning_text,
    ;

    /// Every keyword that moved the machine so far, in order.
    fn matched_keywords(&self) -> (k: &[String])
        requires
            machine_wf(self.machine()),
        ensures
            strings_view(k@) == self.machine().matched_keywords,
    ;

    /// Reads one message; moves forward when a transition fires, and says
    /// whether it moved.
    fn transition(&mut self, text: &str) -> (moved: bool)
        requires
            machine_wf(old(self).machine()),
        ensures
            machine_wf(final(self).machine()),
            (final(self).machine(), moved) == step(old(self).machine(), text@),
    ;

    /// Goes back to the start of the script.
    fn reset(&mut self)
        requires
            machine_wf(old(self).machine()),
        ensures
            machine_wf(final(self).machine()),
            final(self).machine() == initial_machine(old(self).machine().def),
    ;

    /// The explanation: the kind's name and the path of stages.
    fn reasoning(&self) -> (r: String)
        requires
            machine_wf(self.machine()),
        ensures
            r@ == reasoning_text(self.machine()),
    ;
}

/// A fraud-script machine driven by a `FraudStateMachineDef`.
pub struct GenericStateMachine {
    definition: FraudStateMachineDef,
    current_index: usize,
    matched_keywords: Vec<String>,
    state_history: Vec<usize>,
}

impl View for GenericStateMachine {
    type V = MachineView;

    closed spec fn view(&self) -> MachineView {
        MachineView {
            def: self.definition@,
            current_index: self.current_index as int,
            matched_keywords: strings_view(self.matched_keywords@),
            state_history: self.state_history@.map_values(|i: usize| i as int),
        }
    }
}

proof fn lemma_position_from(states: Seq<FraudStateView>, id: Seq<char>, k: int)
    ensures
        position_from(states, id, k) matches Some(n) ==> (k <= n < states.len() && states[n].id == id),
    decreases states.len() - k,
{
    if 0 <= k < states.len() && states[k].id != id {
        lemma_position_from(states, id, k + 1);
    }
}

proof fn lemma_first_firing(def: FraudStateMachineDefView, idx: int, text: Seq<char>, k: int)
    ensures
        first_firing(def, idx, text, k) matches Some(j) ==> (k <= j < def.transitions.len()
            && fires(def, idx, text, def.transitions[j])),
    decreases def.transitions.len() - k,
{
    if 0 <= k < def.transitions.len() && !fires(def, idx, text, def.transitions[k]) {
        lemma_first_firing(def, idx, text, k + 1);
    }
}

/// `strings_view` distributes over concatenation.
proof fn lemma_strings_view_add(a: Seq<String>, b: Seq<String>)
    ensures
        strings_view(a + b) == strings_view(a) + strings_view(b),
{
    assert(strings_view(a + b) =~= strings_view(a) + strings_view(b));
}

impl GenericStateMachine {
    /// A machine at the start of the script `definition`.
    pub fn new(definition: FraudStateMachineDef) -> (sm: Self)
        ensures
            sm@ == initial_machine(definition@),
    {
        let mut history: Vec<usize> = Vec::new();
        history.push(0);
        let sm = GenericStateMachine {
            current_index: 0,
            matched_keywords: Vec::new(),
            state_history: history,
            definition,
        };
        assert(sm@.state_history =~= seq![0int]);
        assert(sm@.matched_keywords =~= Seq::<Seq<char>>::empty());
        sm
    }

    /// The keywords of `keywords`, in order, that occur in `text`, compared in
    /// lowercase.
    pub fn check_keywords_match(text: &str, keywords: &Vec<String>) -> (found: Vec<String>)
        ensures
            strings_view(found@) == keywords_found(text@, strings_view(keywords@)),
    {
        let lower = to_lowercase(text);
        let mut found: Vec<String> = Vec::new();
        let mut i: usize = 0;
        while i < keywords.len()
            invariant
                i <= keywords.len(),
                lower@ == lowercase(text@),
                strings_view(found@) == keywords_found(text@, strings_view(keywords@.subrange(0, i as int))),
            decreases keywords.len() - i,
        {
            let kw_lower = to_lowercase(keywords[i].as_str());
            let ghost prefix = strings_view(keywords@.subrange(0, i as int + 1));
            assert(prefix.drop_last() =~= strings_view(keywords@.subrange(0, i as int)));
            assert(prefix.last() == keywords@[i as int]@);
            if str_contains(lower.as_str(), kw_lower.as_str()) {
                let kw = keywords[i].clone();
                found.push(kw);
                assert(strings_view(found@) =~= keywords_found(text@, prefix));
            }
            i = i + 1;
        }
        assert(keywords@.subrange(0, keywords@.len() as int) == keywords@);
        found
    }

    /// The first stage whose identifier is `id`.
    fn find_state(&self, id: &String) -> (pos: Option<usize>)
        ensures
            pos matches Some(n) ==> state_position(self@.def.states, id@) == Some(n as int),
            pos is None ==> state_position(self@.def.states, id@) is None,
    {
        let states = &self.definition.states;
        let mut k: usize = 0;
        while k < states.len()
            invariant
                k <= states.len(),
                states@.map_values(|s: FraudState| s@) == self@.def.states,
                state_position(self@.def.states, id@) == position_from(self@.def.states, id@, k as int),
            decreases states.len() - k,
        {
            if states[k].id == *id {
                return Some(k);
            }
            k = k + 1;
        }
        None
    }

    /// The first transition that fires from the current stage on `text`,
    /// with the stage it leads to and the keywords that triggered it.
    fn find_transition(&self, text: &str) -> (r: Option<(usize, usize, Vec<String>)>)
        requires
            machine_wf(self@),
        ensures
            match first_firing(self@.def, self@.current_index, text@, 0) {
                Some(k) => r matches Some((kk, n, found)) && kk == k
                    && Some(n as int) == state_position(self@.def.states, self@.def.transitions[k].to_state)
                    && strings_view(found@) == keywords_found(text@, self@.def.transitions[k].trigger_keywords),
                None => r is None,
            },
    {
        let idx = self.current_index;
        let transitions = &self.definition.transitions;
        let current_id = &self.definition.states[idx].id;
        let ghost m = self@;
        let mut k: usize = 0;
        while k < transitions.len()
            invariant
                k <= transitions.len(),
                m == self@,
                idx == m.current_index,
                0 <= idx < m.def.states.len(),
                current_id@ == m.def.states[idx as int].id,
                transitions@.map_values(|t: StateTransition| t@) == m.def.transitions,
                first_firing(m.def, idx as int, text@, 0) == first_firing(m.def, idx as int, text@, k as int),
            decreases transitions.len() - k,
        {
            let t = &transitions[k];
            assert(t@ == m.def.transitions[k as int]);
            if t.from_state == *current_id {
                let found = Self::check_keywords_match(text, &t.trigger_keywords);
                if found.len() > 0 {
                    match self.find_state(&t.to_state) {
                        Some(n) => {
                            if n > idx {
                                return Some((k, n, found));
                            }
                        },
                        None => {},
                    }
                }
            }
            k = k + 1;
        }
        None
    }
}

impl FraudStateMachine for GenericStateMachine {
    open spec fn machine(&self) -> MachineView {
        self@
    }

    fn fraud_type(&self) -> (t: FraudType) {
        self.definition.fraud_type
    }

    fn current_state(&self) -> (s: &FraudState) {
        &self.definition.states[self.current_index]
    }

    fn current_state_index(&self) -> (i: usize) {
        self.current_index
    }

    fn risk_score(&self) -> (r: u32) {
        self.definition.states[self.current_index].risk_score
    }

    fn action_suggestion(&self) -> (a: ActionSuggestion) {
        self.definition.states[self.current_index].action_suggestion
    }

    fn warning_text(&self) -> (w: String) {
        self.definition.states[self.current_index].warning_text.clone()
    }

    fn matched_keywords(&self) -> (k: &[String]) {
        self.matched_keywords.as_slice()
    }

    fn transition(&mut self, text: &str) -> (moved: bool) {
        let ghost m = self@;
        match self.find_transition(text) {
            Some((_k, n, found)) => {
                proof {
                    lemma_first_firing(m.def, m.current_index, text@, 0);
                    let t = m.def.transitions[_k as int];
                    lemma_position_from(m.def.states, t.to_state, 0);
                    lemma_strings_view_add(self.matched_keywords@, found@);
                }
                let mut found = found;
                self.matched_keywords.append(&mut found);
                self.current_index = n;
                self.state_history.push(n);
                assert(self@.state_history =~= m.state_history.push(n as int));
                assert(self@.matched_keywords == m.matched_keywords + keywords_found(text@, m.def.transitions[_k as int].trigger_keywords));
                assert forall|i: int, j: int| 0 <= i < j < self@.state_history.len() implies
                    self@.state_history[i] < self@.state_history[j] by {
                    if j == self@.state_history.len() - 1 && i < j {
                        assert(m.state_history[i] <= m.state_history.last());
                    }
                }
                true
            },
            None => false,
        }
    }

    fn reset(&mut self) {
        self.current_index = 0;
        self.matched_keywords.clear();
        self.state_history.clear();
        self.state_history.push(0);
        assert(self@.state_history =~= seq![0int]);
        assert(self@.matched_keywords =~= Seq::<Seq<char>>::empty());
    }

    #[verifier::rlimit(40)]
    fn reasoning(&self) -> (r: String) {
        let ghost m = self@;
        let ghost labels = m.state_history.map_values(|i: int| state_label(m.def.states[i]));
        let mut out = String::from_str(self.definition.fraud_type.name());
        out.append("话术状态机路径: ");
        let ghost head = out@;
        let mut i: usize = 0;
        while i < self.state_history.len()
            invariant
                i <= self.state_history.len(),
                m == self@,
                machine_wf(m),
                labels == m.state_history.map_values(|i: int| state_label(m.def.states[i])),
                head == m.def.fraud_type.name_spec() + "话术状态机路径: "@,
                out@ == head + join(labels.subrange(0, i as int), " → "@),
            decreases self.state_history.len() - i,
        {
            let h = self.state_history[i];
            assert(m.state_history[i as int] == h as int);
            let state = &self.definition.states[h];
            assert(state@ == m.def.states[h as int]);
            let ghost before = out@;
            if i > 0 {
                out.append(" → ");
            }
            out.append(state.id.as_str());
            out.append("(");
            out.append(state.name.as_str());
            out.append(")");
            proof {
                lemma_join_step(labels, " → "@, i as int);
                assert(labels[i as int] == state_label(state@));
                if i == 0 {
                    assert(out@ =~= before + state_label(state@));
                } else {
                    assert(out@ =~= before + " → "@ + state_label(state@));
                }
            }
            i = i + 1;
        }
        assert(labels.subrange(0, labels.len() as int) == labels);
        out
    }
}

/// Owned copies of `words`, in order.
fn keyword_list(words: &[&str]) -> (v: Vec<String>)
    ensures
        strings_view(v@) == strs_view(words@),
{
    let mut v: Vec<String> = Vec::new();
    let mut i: usize = 0;
    while i < words.len()
        invariant
            i <= words.len(),
            v.len() == i,
            strings_view(v@) == strs_view(words@.subrange(0, i as int)),
        decreases words.len() - i,
    {
        let w: &str = words[i];
        let ghost old_v = v@;
        v.push(String::from_str(w));
        assert forall|j: int| 0 <= j < i + 1 implies strings_view(v@)[j] == strs_view(
            words@.subrange(0, i as int + 1),
        )[j] by {
            if j < i {
                assert(strings_view(old_v)[j] == strs_view(words@.subrange(0, i as int))[j]);
            }
        }
        assert(strings_view(v@) =~= strs_view(words@.subrange(0, i as int + 1)));
        i = i + 1;
    }
    assert(words@.subrange(0, words@.len() as int) == words@);
    v
}

/// A stage built from its parts.
fn make_state(id: &str, name: &str, risk_score: u32, action_suggestion: ActionSuggestion, warning_text: &str) -> (s: FraudState)
    ensures
        s@ == (FraudStateView {
            id: id@,
            name: name@,
            risk_score: risk_score,
            action_suggestion: action_suggestion,
            warning_text: warning_text@,
        }),
{
    FraudState {
        id: String::from_str(id),
        name: String::from_str(name),
        risk_score: risk_score,
        action_suggestion: action_suggestion,
        warning_text: String::from_str(warning_text),
    }
}

/// A transition built from its parts.
fn make_transition(from_state: &str, to_state: &str, keywords: &[&str]) -> (t: StateTransition)
    ensures
        t@ == (StateTransitionView {
            from_state: from_state@,
            to_state: to_state@,
            trigger_keywords: strs_view(keywords@),
        }),
{
    StateTransition {
        from_state: String::from_str(from_state),
        to_state: String::from_str(to_state),
        trigger_keywords: keyword_list(keywords),
    }
}

/// The stages' risk scores strictly increase along the script.
pub open spec fn scores_increase(states: Seq<FraudStateView>) -> bool {
    forall|i: int, j: int| 0 <= i < j < states.len() ==> states[i].risk_score < states[j].risk_score
}

} // verus!
