use vstd::prelude::*;
use super::{
    make_state, make_transition, scores_increase, initial_machine, ActionSuggestion, FraudState,
    FraudStateMachineDef, FraudStateMachineDefView, FraudStateView, FraudType, GenericStateMachine,
    StateTransition, StateTransitionView,
};

verus! {

/// The script of the romance ("pig butchering") fraud: its stages and the keywords
/// that move a conversation from one stage to the next.
pub open spec fn romance_definition() -> FraudStateMachineDefView {
    FraudStateMachineDefView {
        fraud_type: FraudType::Romance,
        states: seq![
            FraudStateView {
                id: "S0"@,
                name: "初始"@,
                risk_score: 0,
                action_suggestion: ActionSuggestion::NoAction,
                warning_text: ""@,
            },
            FraudStateView {
                id: "S1"@,
                name: "搭讪接触"@,
                risk_score: 10,
                action_suggestion: ActionSuggestion::Monitor,
                warning_text: "轻提示：注意网络交友安全"@,
            },
            FraudStateView {
                id: "S2"@,
                name: "情感升温"@,
                risk_score: 30,
                action_suggestion: ActionSuggestion::Monitor,
                warning_text: "轻提示：网络交友需谨慎，注意对方真实身份"@,
            },
            FraudStateView {
                id: "S3"@,
                name: "身份包装"@,
                risk_score: 40,
                action_suggestion: ActionSuggestion::Warn,
                warning_text: "候选词区警告：注意核实对方声称的身份"@,
            },
            FraudStateView {
                id: "S4"@,
                name: "透露商机"@,
                risk_score: 60,
                action_suggestion: ActionSuggestion::Warn,
                warning_text: "浮层警告：恋人推荐投资是杀猪盘典型手法"@,
            },
            FraudStateView {
                id: "S5"@,
                name: "晒收益诱导"@,
                risk_score: 70,
                action_suggestion: ActionSuggestion::Warn,
                warning_text: "浮层警告：收益截图可伪造，切勿跟投"@,
            },
            FraudStateView {
                id: "S6"@,
                name: "诱导投资"@,
                risk_score: 90,
                action_suggestion: ActionSuggestion::Block,
                warning_text: "高危弹窗：检测到虚假投资平台诱导，立即停止充值"@,
            },
            FraudStateView {
                id: "S7"@,
                name: "无法提现"@,
                risk_score: 100,
                action_suggestion: ActionSuggestion::Block,
                warning_text: "全屏阻断：杀猪盘最后阶段，不要再充值！拨打96110"@,
            },
        ],
        transitions: seq![
            StateTransitionView {
                from_state: "S0"@,
                to_state: "S1"@,
                trigger_keywords: seq![
                    "认识一下"@,
                    "缘分"@,
                    "你单身吗"@,
                ],
            },
            StateTransitionView {
                from_state: "S1"@,
                to_state: "S2"@,
                trigger_keywords: seq![
                    "亲爱的"@,
                    "宝贝"@,
                    "想你了"@,
                ],
            },
            StateTransitionView {
                from_state: "S2"@,
                to_state: "S3"@,
                trigger_keywords: seq![
                    "军人"@,
                    "医生"@,
                    "海外华人"@,
                    "成功人士"@,
                ],
            },
            StateTransitionView {
                from_state: "S3"@,
                to_state: "S4"@,
                trigger_keywords: seq![
                    "有内幕"@,
                    "发现平台漏洞"@,
                    "带你赚钱"@,
                ],
            },
            StateTransitionView {
                from_state: "S4"@,
                to_state: "S5"@,
                trigger_keywords: seq![
                    "今天又赚了"@,
                    "截图给你看"@,
                ],
            },
            StateTransitionView {
                from_state: "S5"@,
                to_state: "S6"@,
                trigger_keywords: seq![
                    "下载APP"@,
                    "充值"@,
                    "跟投"@,
                ],
            },
            StateTransitionView {
                from_state: "S6"@,
                to_state: "S7"@,
                trigger_keywords: seq![
                    "账户冻结"@,
                    "需要交税"@,
                    "再充一笔"@,
                ],
            },
        ],
    }
}

/// The risk of the romance ("pig butchering") script rises with every stage.
pub proof fn lemma_romance_scores_increase()
    ensures
        scores_increase(romance_definition().states),
{
}

/// A machine at the start of the romance ("pig butchering") script.
pub fn create_romance_machine() -> (sm: GenericStateMachine)
    ensures
        sm@ == initial_machine(romance_definition()),
{
    let mut states: Vec<FraudState> = Vec::new();
    states.push(make_state("S0", "初始", 0, ActionSuggestion::NoAction, ""));
    states.push(make_state("S1", "搭讪接触", 10, ActionSuggestion::Monitor, "轻提示：注意网络交友安全"));
    states.push(make_state("S2", "情感升温", 30, ActionSuggestion::Monitor, "轻提示：网络交友需谨慎，注意对方真实身份"));
    states.push(make_state("S3", "身份包装", 40, ActionSuggestion::Warn, "候选词区警告：注意核实对方声称的身份"));
    states.push(make_state("S4", "透露商机", 60, ActionSuggestion::Warn, "浮层警告：恋人推荐投资是杀猪盘典型手法"));
    states.push(make_state("S5", "晒收益诱导", 70, ActionSuggestion::Warn, "浮层警告：收益截图可伪造，切勿跟投"));
    states.push(make_state("S6", "诱导投资", 90, ActionSuggestion::Block, "高危弹窗：检测到虚假投资平台诱导，立即停止充值"));
    states.push(make_state("S7", "无法提现", 100, ActionSuggestion::Block, "全屏阻断：杀猪盘最后阶段，不要再充值！拨打96110"));
    let mut transitions: Vec<StateTransition> = Vec::new();
    transitions.push(make_transition("S0", "S1", &["认识一下", "缘分", "你单身吗"]));
    transitions.push(make_transition("S1", "S2", &["亲爱的", "宝贝", "想你了"]));
    transitions.push(make_transition("S2", "S3", &["军人", "医生", "海外华人", "成功人士"]));
    transitions.push(make_transition("S3", "S4", &["有内幕", "发现平台漏洞", "带你赚钱"]));
    transitions.push(make_transition("S4", "S5", &["今天又赚了", "截图给你看"]));
    transitions.push(make_transition("S5", "S6", &["下载APP", "充值", "跟投"]));
    transitions.push(make_transition("S6", "S7", &["账户冻结", "需要交税", "再充一笔"]));
    let definition = FraudStateMachineDef {
        fraud_type: FraudType::Romance,
        states: states,
        transitions: transitions,
    };
    assert(definition@ =~~= romance_definition());
    GenericStateMachine::new(definition)
}

} // verus!
