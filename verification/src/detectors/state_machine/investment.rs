use vstd::prelude::*;
use super::{
    make_state, make_transition, scores_increase, initial_machine, ActionSuggestion, FraudState,
    FraudStateMachineDef, FraudStateMachineDefView, FraudStateView, FraudType, GenericStateMachine,
    StateTransition, StateTransitionView,
};

verus! {

/// The script of the fake investment fraud: its stages and the keywords
/// that move a conversation from one stage to the next.
pub open spec fn investment_definition() -> FraudStateMachineDefView {
    FraudStateMachineDefView {
        fraud_type: FraudType::Investment,
        states: seq![
            FraudStateView {
                id: "S0"@,
                name: "初始"@,
                risk_score: 0,
                action_suggestion: ActionSuggestion::NoAction,
                warning_text: ""@,
            },
            FraudStateView {
                id: "S1"@,
                name: "引流接触"@,
                risk_score: 20,
                action_suggestion: ActionSuggestion::Monitor,
                warning_text: "轻提示：警惕投资理财诈骗"@,
            },
            FraudStateView {
                id: "S2"@,
                name: "人设包装"@,
                risk_score: 40,
                action_suggestion: ActionSuggestion::Warn,
                warning_text: "候选词区警告：所谓内幕消息和老师带单都是骗局"@,
            },
            FraudStateView {
                id: "S3"@,
                name: "晒单诱导"@,
                risk_score: 60,
                action_suggestion: ActionSuggestion::Warn,
                warning_text: "浮层警告：收益截图可以伪造，切勿轻信"@,
            },
            FraudStateView {
                id: "S4"@,
                name: "诱导注册"@,
                risk_score: 80,
                action_suggestion: ActionSuggestion::Block,
                warning_text: "高危弹窗：检测到诱导下载虚假投资APP，立即停止"@,
            },
            FraudStateView {
                id: "S5"@,
                name: "诱导充值"@,
                risk_score: 100,
                action_suggestion: ActionSuggestion::Block,
                warning_text: "全屏阻断：虚假投资平台充值后无法提现！拨打96110求助"@,
            },
        ],
        transitions: seq![
            StateTransitionView {
                from_state: "S0"@,
                to_state: "S1"@,
                trigger_keywords: seq![
                    "加群交流"@,
                    "老师分析"@,
                    "免费诊股"@,
                    "导师"@,
                    "带单"@,
                ],
            },
            StateTransitionView {
                from_state: "S1"@,
                to_state: "S2"@,
                trigger_keywords: seq![
                    "有内幕消息"@,
                    "跟着机构操作"@,
                    "截图收益"@,
                    "内幕"@,
                    "稳赚"@,
                ],
            },
            StateTransitionView {
                from_state: "S2"@,
                to_state: "S3"@,
                trigger_keywords: seq![
                    "今天又赚了"@,
                    "学员收益截图"@,
                    "错过等一年"@,
                ],
            },
            StateTransitionView {
                from_state: "S3"@,
                to_state: "S4"@,
                trigger_keywords: seq![
                    "扫码下载APP"@,
                    "专属通道"@,
                    "名额有限"@,
                    "下载APP"@,
                ],
            },
            StateTransitionView {
                from_state: "S4"@,
                to_state: "S5"@,
                trigger_keywords: seq![
                    "入金"@,
                    "充值"@,
                    "跟上这单"@,
                    "满仓干"@,
                    "跟投"@,
                ],
            },
        ],
    }
}

/// The risk of the fake investment script rises with every stage.
pub proof fn lemma_investment_scores_increase()
    ensures
        scores_increase(investment_definition().states),
{
}

/// A machine at the start of the fake investment script.
pub fn create_investment_machine() -> (sm: GenericStateMachine)
    ensures
        sm@ == initial_machine(investment_definition()),
{
    let mut states: Vec<FraudState> = Vec::new();
    states.push(make_state("S0", "初始", 0, ActionSuggestion::NoAction, ""));
    states.push(make_state("S1", "引流接触", 20, ActionSuggestion::Monitor, "轻提示：警惕投资理财诈骗"));
    states.push(make_state("S2", "人设包装", 40, ActionSuggestion::Warn, "候选词区警告：所谓内幕消息和老师带单都是骗局"));
    states.push(make_state("S3", "晒单诱导", 60, ActionSuggestion::Warn, "浮层警告：收益截图可以伪造，切勿轻信"));
    states.push(make_state("S4", "诱导注册", 80, ActionSuggestion::Block, "高危弹窗：检测到诱导下载虚假投资APP，立即停止"));
    states.push(make_state("S5", "诱导充值", 100, ActionSuggestion::Block, "全屏阻断：虚假投资平台充值后无法提现！拨打96110求助"));
    let mut transitions: Vec<StateTransition> = Vec::new();
    transitions.push(make_transition("S0", "S1", &["加群交流", "老师分析", "免费诊股", "导师", "带单"]));
    transitions.push(make_transition("S1", "S2", &["有内幕消息", "跟着机构操作", "截图收益", "内幕", "稳赚"]));
    transitions.push(make_transition("S2", "S3", &["今天又赚了", "学员收益截图", "错过等一年"]));
    transitions.push(make_transition("S3", "S4", &["扫码下载APP", "专属通道", "名额有限", "下载APP"]));
    transitions.push(make_transition("S4", "S5", &["入金", "充值", "跟上这单", "满仓干", "跟投"]));
    let definition = FraudStateMachineDef {
        fraud_type: FraudType::Investment,
        states: states,
        transitions: transitions,
    };
    assert(definition@ =~~= investment_definition());
    GenericStateMachine::new(definition)
}

} // verus!
