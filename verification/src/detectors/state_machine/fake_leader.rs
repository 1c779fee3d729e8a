use vstd::prelude::*;
use super::{
    make_state, make_transition, scores_increase, initial_machine, ActionSuggestion, FraudState,
    FraudStateMachineDef, FraudStateMachineDefView, FraudStateView, FraudType, GenericStateMachine,
    StateTransition, StateTransitionView,
};

verus! {

/// The script of the impersonated superior or acquaintance fraud: its stages and the keywords
/// that move a conversation from one stage to the next.
pub open spec fn fake_leader_definition() -> FraudStateMachineDefView {
    FraudStateMachineDefView {
        fraud_type: FraudType::FakeLeader,
        states: seq![
            FraudStateView {
                id: "S0"@,
                name: "初始"@,
                risk_score: 0,
                action_suggestion: ActionSuggestion::NoAction,
                warning_text: ""@,
            },
            FraudStateView {
                id: "S1"@,
                name: "身份声明"@,
                risk_score: 30,
                action_suggestion: ActionSuggestion::Monitor,
                warning_text: "轻提示：请通过其他渠道核实对方身份"@,
            },
            FraudStateView {
                id: "S2"@,
                name: "情境铺垫"@,
                risk_score: 50,
                action_suggestion: ActionSuggestion::Warn,
                warning_text: "候选词区警告：领导不会通过新号码要求转账"@,
            },
            FraudStateView {
                id: "S3"@,
                name: "制造紧急"@,
                risk_score: 80,
                action_suggestion: ActionSuggestion::Block,
                warning_text: "高危弹窗：紧急借款是冒充领导诈骗的典型手法"@,
            },
            FraudStateView {
                id: "S4"@,
                name: "催促转账"@,
                risk_score: 100,
                action_suggestion: ActionSuggestion::Block,
                warning_text: "全屏阻断：请当面或电话核实！拨打96110求助"@,
            },
        ],
        transitions: seq![
            StateTransitionView {
                from_state: "S0"@,
                to_state: "S1"@,
                trigger_keywords: seq![
                    "我是XX"@,
                    "换号了"@,
                    "存一下"@,
                ],
            },
            StateTransitionView {
                from_state: "S1"@,
                to_state: "S2"@,
                trigger_keywords: seq![
                    "不方便接电话"@,
                    "在开会"@,
                    "在外地"@,
                ],
            },
            StateTransitionView {
                from_state: "S2"@,
                to_state: "S3"@,
                trigger_keywords: seq![
                    "急需用钱"@,
                    "帮我转一笔钱"@,
                    "事后报销"@,
                ],
            },
            StateTransitionView {
                from_state: "S3"@,
                to_state: "S4"@,
                trigger_keywords: seq![
                    "账号发给你"@,
                    "快点"@,
                    "别耽误"@,
                ],
            },
        ],
    }
}

/// The risk of the impersonated superior or acquaintance script rises with every stage.
pub proof fn lemma_fake_leader_scores_increase()
    ensures
        scores_increase(fake_leader_definition().states),
{
}

/// A machine at the start of the impersonated superior or acquaintance script.
pub fn create_fake_leader_machine() -> (sm: GenericStateMachine)
    ensures
        sm@ == initial_machine(fake_leader_definition()),
{
    let mut states: Vec<FraudState> = Vec::new();
    states.push(make_state("S0", "初始", 0, ActionSuggestion::NoAction, ""));
    states.push(make_state("S1", "身份声明", 30, ActionSuggestion::Monitor, "轻提示：请通过其他渠道核实对方身份"));
    states.push(make_state("S2", "情境铺垫", 50, ActionSuggestion::Warn, "候选词区警告：领导不会通过新号码要求转账"));
    states.push(make_state("S3", "制造紧急", 80, ActionSuggestion::Block, "高危弹窗：紧急借款是冒充领导诈骗的典型手法"));
    states.push(make_state("S4", "催促转账", 100, ActionSuggestion::Block, "全屏阻断：请当面或电话核实！拨打96110求助"));
    let mut transitions: Vec<StateTransition> = Vec::new();
    transitions.push(make_transition("S0", "S1", &["我是XX", "换号了", "存一下"]));
    transitions.push(make_transition("S1", "S2", &["不方便接电话", "在开会", "在外地"]));
    transitions.push(make_transition("S2", "S3", &["急需用钱", "帮我转一笔钱", "事后报销"]));
    transitions.push(make_transition("S3", "S4", &["账号发给你", "快点", "别耽误"]));
    let definition = FraudStateMachineDef {
        fraud_type: FraudType::FakeLeader,
        states: states,
        transitions: transitions,
    };
    assert(definition@ =~~= fake_leader_definition());
    GenericStateMachine::new(definition)
}

} // verus!
