use vstd::prelude::*;
use super::{
    make_state, make_transition, scores_increase, initial_machine, ActionSuggestion, FraudState,
    FraudStateMachineDef, FraudStateMachineDefView, FraudStateView, FraudType, GenericStateMachine,
    StateTransition, StateTransitionView,
};

verus! {

/// The script of the fake shopping fraud: its stages and the keywords
/// that move a conversation from one stage to the next.
pub open spec fn fake_shopping_definition() -> FraudStateMachineDefView {
    FraudStateMachineDefView {
        fraud_type: FraudType::FakeShopping,
        states: seq![
            FraudStateView {
                id: "S0"@,
                name: "初始"@,
                risk_score: 0,
                action_suggestion: ActionSuggestion::NoAction,
                warning_text: ""@,
            },
            FraudStateView {
                id: "S1"@,
                name: "低价吸引"@,
                risk_score: 20,
                action_suggestion: ActionSuggestion::Monitor,
                warning_text: "轻提示：警惕虚假购物诈骗"@,
            },
            FraudStateView {
                id: "S2"@,
                name: "引导脱离平台"@,
                risk_score: 50,
                action_suggestion: ActionSuggestion::Warn,
                warning_text: "浮层警告：要求私下交易是典型诈骗手法"@,
            },
            FraudStateView {
                id: "S3"@,
                name: "催促付款"@,
                risk_score: 80,
                action_suggestion: ActionSuggestion::Block,
                warning_text: "高危弹窗：私下交易无保障，切勿先付定金"@,
            },
            FraudStateView {
                id: "S4"@,
                name: "失联"@,
                risk_score: 100,
                action_suggestion: ActionSuggestion::Block,
                warning_text: "全屏阻断：诈骗已发生，请立即报警拨打96110"@,
            },
        ],
        transitions: seq![
            StateTransitionView {
                from_state: "S0"@,
                to_state: "S1"@,
                trigger_keywords: seq![
                    "限时抢购"@,
                    "亏本清仓"@,
                    "厂家直销"@,
                    "一折起"@,
                    "低价"@,
                    "秒杀"@,
                ],
            },
            StateTransitionView {
                from_state: "S1"@,
                to_state: "S2"@,
                trigger_keywords: seq![
                    "加微信聊"@,
                    "私下交易"@,
                    "平台手续费太高"@,
                    "走第三方"@,
                ],
            },
            StateTransitionView {
                from_state: "S2"@,
                to_state: "S3"@,
                trigger_keywords: seq![
                    "定金留货"@,
                    "马上被人抢了"@,
                    "先转定金"@,
                    "先付款"@,
                ],
            },
            StateTransitionView {
                from_state: "S3"@,
                to_state: "S4"@,
                trigger_keywords: seq![
                    "系统故障"@,
                    "物流延迟"@,
                    "拉黑"@,
                ],
            },
        ],
    }
}

/// The risk of the fake shopping script rises with every stage.
pub proof fn lemma_fake_shopping_scores_increase()
    ensures
        scores_increase(fake_shopping_definition().states),
{
}

/// A machine at the start of the fake shopping script.
pub fn create_fake_shopping_machine() -> (sm: GenericStateMachine)
    ensures
        sm@ == initial_machine(fake_shopping_definition()),
{
    let mut states: Vec<FraudState> = Vec::new();
    states.push(make_state("S0", "初始", 0, ActionSuggestion::NoAction, ""));
    states.push(make_state("S1", "低价吸引", 20, ActionSuggestion::Monitor, "轻提示：警惕虚假购物诈骗"));
    states.push(make_state("S2", "引导脱离平台", 50, ActionSuggestion::Warn, "浮层警告：要求私下交易是典型诈骗手法"));
    states.push(make_state("S3", "催促付款", 80, ActionSuggestion::Block, "高危弹窗：私下交易无保障，切勿先付定金"));
    states.push(make_state("S4", "失联", 100, ActionSuggestion::Block, "全屏阻断：诈骗已发生，请立即报警拨打96110"));
    let mut transitions: Vec<StateTransition> = Vec::new();
    transitions.push(make_transition("S0", "S1", &["限时抢购", "亏本清仓", "厂家直销", "一折起", "低价", "秒杀"]));
    transitions.push(make_transition("S1", "S2", &["加微信聊", "私下交易", "平台手续费太高", "走第三方"]));
    transitions.push(make_transition("S2", "S3", &["定金留货", "马上被人抢了", "先转定金", "先付款"]));
    transitions.push(make_transition("S3", "S4", &["系统故障", "物流延迟", "拉黑"]));
    let definition = FraudStateMachineDef {
        fraud_type: FraudType::FakeShopping,
        states: states,
        transitions: transitions,
    };
    assert(definition@ =~~= fake_shopping_definition());
    GenericStateMachine::new(definition)
}

} // verus!
