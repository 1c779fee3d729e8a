use vstd::prelude::*;
use super::{
    make_state, make_transition, scores_increase, initial_machine, ActionSuggestion, FraudState,
    FraudStateMachineDef, FraudStateMachineDefView, FraudStateView, FraudType, GenericStateMachine,
    StateTransition, StateTransitionView,
};

verus! {

/// The script of the flight rebooking fraud: its stages and the keywords
/// that move a conversation from one stage to the next.
pub open spec fn flight_change_definition() -> FraudStateMachineDefView {
    FraudStateMachineDefView {
        fraud_type: FraudType::FlightChange,
        states: seq![
            FraudStateView {
                id: "S0"@,
                name: "初始"@,
                risk_score: 0,
                action_suggestion: ActionSuggestion::NoAction,
                warning_text: ""@,
            },
            FraudStateView {
                id: "S1"@,
                name: "航班异常"@,
                risk_score: 30,
                action_suggestion: ActionSuggestion::Monitor,
                warning_text: "轻提示：请通过航空公司官方渠道核实航班信息"@,
            },
            FraudStateView {
                id: "S2"@,
                name: "诱导操作"@,
                risk_score: 70,
                action_suggestion: ActionSuggestion::Warn,
                warning_text: "浮层警告：退改签应通过官方APP，勿点击陌生链接"@,
            },
            FraudStateView {
                id: "S3"@,
                name: "索要信息"@,
                risk_score: 100,
                action_suggestion: ActionSuggestion::Block,
                warning_text: "全屏阻断：航班诈骗最后阶段！拨打96110求助"@,
            },
        ],
        transitions: seq![
            StateTransitionView {
                from_state: "S0"@,
                to_state: "S1"@,
                trigger_keywords: seq![
                    "航班取消"@,
                    "航班延误"@,
                ],
            },
            StateTransitionView {
                from_state: "S1"@,
                to_state: "S2"@,
                trigger_keywords: seq![
                    "办理理赔"@,
                    "点击链接"@,
                ],
            },
            StateTransitionView {
                from_state: "S2"@,
                to_state: "S3"@,
                trigger_keywords: seq![
                    "银行卡号"@,
                    "验证码"@,
                ],
            },
        ],
    }
}

/// The risk of the flight rebooking script rises with every stage.
pub proof fn lemma_flight_change_scores_increase()
    ensures
        scores_increase(flight_change_definition().states),
{
}

/// A machine at the start of the flight rebooking script.
pub fn create_flight_change_machine() -> (sm: GenericStateMachine)
    ensures
        sm@ == initial_machine(flight_change_definition()),
{
    let mut states: Vec<FraudState> = Vec::new();
    states.push(make_state("S0", "初始", 0, ActionSuggestion::NoAction, ""));
    states.push(make_state("S1", "航班异常", 30, ActionSuggestion::Monitor, "轻提示：请通过航空公司官方渠道核实航班信息"));
    states.push(make_state("S2", "诱导操作", 70, ActionSuggestion::Warn, "浮层警告：退改签应通过官方APP，勿点击陌生链接"));
    states.push(make_state("S3", "索要信息", 100, ActionSuggestion::Block, "全屏阻断：航班诈骗最后阶段！拨打96110求助"));
    let mut transitions: Vec<StateTransition> = Vec::new();
    transitions.push(make_transition("S0", "S1", &["航班取消", "航班延误"]));
    transitions.push(make_transition("S1", "S2", &["办理理赔", "点击链接"]));
    transitions.push(make_transition("S2", "S3", &["银行卡号", "验证码"]));
    let definition = FraudStateMachineDef {
        fraud_type: FraudType::FlightChange,
        states: states,
        transitions: transitions,
    };
    assert(definition@ =~~= flight_change_definition());
    GenericStateMachine::new(definition)
}

} // verus!
