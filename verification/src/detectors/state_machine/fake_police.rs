use vstd::prelude::*;
use super::{
    make_state, make_transition, scores_increase, initial_machine, ActionSuggestion, FraudState,
    FraudStateMachineDef, FraudStateMachineDefView, FraudStateView, FraudType, GenericStateMachine,
    StateTransition, StateTransitionView,
};

verus! {

/// The script of the impersonated police and judiciary fraud: its stages and the keywords
/// that move a conversation from one stage to the next.
pub open spec fn fake_police_definition() -> FraudStateMachineDefView {
    FraudStateMachineDefView {
        fraud_type: FraudType::FakePolice,
        states: seq![
            FraudStateView {
                id: "S0"@,
                name: "初始"@,
                risk_score: 0,
                action_suggestion: ActionSuggestion::NoAction,
                warning_text: ""@,
            },
            FraudStateView {
                id: "S1"@,
                name: "身份冒用"@,
                risk_score: 40,
                action_suggestion: ActionSuggestion::Monitor,
                warning_text: "轻提示：公安机关不会通过电话办案"@,
            },
            FraudStateView {
                id: "S2"@,
                name: "罪名指控"@,
                risk_score: 60,
                action_suggestion: ActionSuggestion::Warn,
                warning_text: "候选词区警告：公检法不会电话通知涉嫌犯罪"@,
            },
            FraudStateView {
                id: "S3"@,
                name: "恐吓操控"@,
                risk_score: 80,
                action_suggestion: ActionSuggestion::Block,
                warning_text: "高危弹窗：要求保密和隔离是操控手段"@,
            },
            FraudStateView {
                id: "S4"@,
                name: "诱导转账"@,
                risk_score: 100,
                action_suggestion: ActionSuggestion::Block,
                warning_text: "全屏阻断+一键拨打96110：公检法不存在安全账户！"@,
            },
        ],
        transitions: seq![
            StateTransitionView {
                from_state: "S0"@,
                to_state: "S1"@,
                trigger_keywords: seq![
                    "公安局"@,
                    "检察院"@,
                    "法院"@,
                    "我是XX警官"@,
                ],
            },
            StateTransitionView {
                from_state: "S1"@,
                to_state: "S2"@,
                trigger_keywords: seq![
                    "涉嫌洗钱"@,
                    "通缉令"@,
                    "身份被盗用"@,
                ],
            },
            StateTransitionView {
                from_state: "S2"@,
                to_state: "S3"@,
                trigger_keywords: seq![
                    "保密"@,
                    "不要告诉家人"@,
                    "影响子女"@,
                ],
            },
            StateTransitionView {
                from_state: "S3"@,
                to_state: "S4"@,
                trigger_keywords: seq![
                    "安全账户"@,
                    "资金核查"@,
                    "保证金"@,
                ],
            },
        ],
    }
}

/// The risk of the impersonated police and judiciary script rises with every stage.
pub proof fn lemma_fake_police_scores_increase()
    ensures
        scores_increase(fake_police_definition().states),
{
}

/// A machine at the start of the impersonated police and judiciary script.
pub fn create_fake_police_machine() -> (sm: GenericStateMachine)
    ensures
        sm@ == initial_machine(fake_police_definition()),
{
    let mut states: Vec<FraudState> = Vec::new();
    states.push(make_state("S0", "初始", 0, ActionSuggestion::NoAction, ""));
    states.push(make_state("S1", "身份冒用", 40, ActionSuggestion::Monitor, "轻提示：公安机关不会通过电话办案"));
    states.push(make_state("S2", "罪名指控", 60, ActionSuggestion::Warn, "候选词区警告：公检法不会电话通知涉嫌犯罪"));
    states.push(make_state("S3", "恐吓操控", 80, ActionSuggestion::Block, "高危弹窗：要求保密和隔离是操控手段"));
    states.push(make_state("S4", "诱导转账", 100, ActionSuggestion::Block, "全屏阻断+一键拨打96110：公检法不存在安全账户！"));
    let mut transitions: Vec<StateTransition> = Vec::new();
    transitions.push(make_transition("S0", "S1", &["公安局", "检察院", "法院", "我是XX警官"]));
    transitions.push(make_transition("S1", "S2", &["涉嫌洗钱", "通缉令", "身份被盗用"]));
    transitions.push(make_transition("S2", "S3", &["保密", "不要告诉家人", "影响子女"]));
    transitions.push(make_transition("S3", "S4", &["安全账户", "资金核查", "保证金"]));
    let definition = FraudStateMachineDef {
        fraud_type: FraudType::FakePolice,
        states: states,
        transitions: transitions,
    };
    assert(definition@ =~~= fake_police_definition());
    GenericStateMachine::new(definition)
}

} // verus!
