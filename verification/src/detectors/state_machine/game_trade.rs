use vstd::prelude::*;
use super::{
    make_state, make_transition, scores_increase, initial_machine, ActionSuggestion, FraudState,
    FraudStateMachineDef, FraudStateMachineDefView, FraudStateView, FraudType, GenericStateMachine,
    StateTransition, StateTransitionView,
};

verus! {

/// The script of the fake game trade fraud: its stages and the keywords
/// that move a conversation from one stage to the next.
pub open spec fn game_trade_definition() -> FraudStateMachineDefView {
    FraudStateMachineDefView {
        fraud_type: FraudType::GameTrade,
        states: seq![
            FraudStateView {
                id: "S0"@,
                name: "初始"@,
                risk_score: 0,
                action_suggestion: ActionSuggestion::NoAction,
                warning_text: ""@,
            },
            FraudStateView {
                id: "S1"@,
                name: "低价吸引"@,
                risk_score: 30,
                action_suggestion: ActionSuggestion::Monitor,
                warning_text: "轻提示：警惕游戏交易诈骗"@,
            },
            FraudStateView {
                id: "S2"@,
                name: "引导私下"@,
                risk_score: 50,
                action_suggestion: ActionSuggestion::Warn,
                warning_text: "候选词区警告：脱离平台交易无保障"@,
            },
            FraudStateView {
                id: "S3"@,
                name: "要求付款"@,
                risk_score: 80,
                action_suggestion: ActionSuggestion::Block,
                warning_text: "高危弹窗：先付款后交货是典型骗局"@,
            },
            FraudStateView {
                id: "S4"@,
                name: "连环骗"@,
                risk_score: 100,
                action_suggestion: ActionSuggestion::Block,
                warning_text: "全屏阻断：连环收费无法追回！拨打96110"@,
            },
        ],
        transitions: seq![
            StateTransitionView {
                from_state: "S0"@,
                to_state: "S1"@,
                trigger_keywords: seq![
                    "低价卖号"@,
                    "代练"@,
                    "稀有装备"@,
                ],
            },
            StateTransitionView {
                from_state: "S1"@,
                to_state: "S2"@,
                trigger_keywords: seq![
                    "加QQ"@,
                    "走第三方"@,
                    "平台手续费贵"@,
                ],
            },
            StateTransitionView {
                from_state: "S2"@,
                to_state: "S3"@,
                trigger_keywords: seq![
                    "先转账"@,
                    "定金"@,
                    "保证金"@,
                ],
            },
            StateTransitionView {
                from_state: "S3"@,
                to_state: "S4"@,
                trigger_keywords: seq![
                    "账户冻结"@,
                    "需要再转一笔解冻"@,
                ],
            },
        ],
    }
}

/// The risk of the fake game trade script rises with every stage.
pub proof fn lemma_game_trade_scores_increase()
    ensures
        scores_increase(game_trade_definition().states),
{
}

/// A machine at the start of the fake game trade script.
pub fn create_game_trade_machine() -> (sm: GenericStateMachine)
    ensures
        sm@ == initial_machine(game_trade_definition()),
{
    let mut states: Vec<FraudState> = Vec::new();
    states.push(make_state("S0", "初始", 0, ActionSuggestion::NoAction, ""));
    states.push(make_state("S1", "低价吸引", 30, ActionSuggestion::Monitor, "轻提示：警惕游戏交易诈骗"));
    states.push(make_state("S2", "引导私下", 50, ActionSuggestion::Warn, "候选词区警告：脱离平台交易无保障"));
    states.push(make_state("S3", "要求付款", 80, ActionSuggestion::Block, "高危弹窗：先付款后交货是典型骗局"));
    states.push(make_state("S4", "连环骗", 100, ActionSuggestion::Block, "全屏阻断：连环收费无法追回！拨打96110"));
    let mut transitions: Vec<StateTransition> = Vec::new();
    transitions.push(make_transition("S0", "S1", &["低价卖号", "代练", "稀有装备"]));
    transitions.push(make_transition("S1", "S2", &["加QQ", "走第三方", "平台手续费贵"]));
    transitions.push(make_transition("S2", "S3", &["先转账", "定金", "保证金"]));
    transitions.push(make_transition("S3", "S4", &["账户冻结", "需要再转一笔解冻"]));
    let definition = FraudStateMachineDef {
        fraud_type: FraudType::GameTrade,
        states: states,
        transitions: transitions,
    };
    assert(definition@ =~~= game_trade_definition());
    GenericStateMachine::new(definition)
}

} // verus!
