use vstd::prelude::*;
use super::{
    make_state, make_transition, scores_increase, initial_machine, ActionSuggestion, FraudState,
    FraudStateMachineDef, FraudStateMachineDefView, FraudStateView, FraudType, GenericStateMachine,
    StateTransition, StateTransitionView,
};

verus! {

/// The script of the fake customer service fraud: its stages and the keywords
/// that move a conversation from one stage to the next.
pub open spec fn fake_customer_definition() -> FraudStateMachineDefView {
    FraudStateMachineDefView {
        fraud_type: FraudType::FakeCustomer,
        states: seq![
            FraudStateView {
                id: "S0"@,
                name: "初始"@,
                risk_score: 0,
                action_suggestion: ActionSuggestion::NoAction,
                warning_text: ""@,
            },
            FraudStateView {
                id: "S1"@,
                name: "身份冒充"@,
                risk_score: 30,
                action_suggestion: ActionSuggestion::Monitor,
                warning_text: "轻提示：注意核实客服身份"@,
            },
            FraudStateView {
                id: "S2"@,
                name: "问题制造"@,
                risk_score: 50,
                action_suggestion: ActionSuggestion::Warn,
                warning_text: "候选词区警告：正规客服不会私下联系要求操作"@,
            },
            FraudStateView {
                id: "S3"@,
                name: "诱导操作"@,
                risk_score: 70,
                action_suggestion: ActionSuggestion::Warn,
                warning_text: "浮层警告：退款理赔应通过官方渠道，勿扫码操作"@,
            },
            FraudStateView {
                id: "S4"@,
                name: "屏幕共享"@,
                risk_score: 90,
                action_suggestion: ActionSuggestion::Block,
                warning_text: "高危弹窗：客服不会要求屏幕共享！立即停止"@,
            },
            FraudStateView {
                id: "S5"@,
                name: "索要验证码"@,
                risk_score: 100,
                action_suggestion: ActionSuggestion::Block,
                warning_text: "全屏阻断：验证码是最后防线，绝不可告知他人！拨打96110"@,
            },
        ],
        transitions: seq![
            StateTransitionView {
                from_state: "S0"@,
                to_state: "S1"@,
                trigger_keywords: seq![
                    "淘宝客服"@,
                    "京东客服"@,
                    "拼多多客服"@,
                    "快递客服"@,
                ],
            },
            StateTransitionView {
                from_state: "S1"@,
                to_state: "S2"@,
                trigger_keywords: seq![
                    "商品质量问题"@,
                    "快递丢失"@,
                    "订单异常"@,
                ],
            },
            StateTransitionView {
                from_state: "S2"@,
                to_state: "S3"@,
                trigger_keywords: seq![
                    "需要退款"@,
                    "打开备用金"@,
                    "扫码退款"@,
                    "理赔"@,
                ],
            },
            StateTransitionView {
                from_state: "S3"@,
                to_state: "S4"@,
                trigger_keywords: seq![
                    "下载会议"@,
                    "屏幕共享"@,
                    "远程协助"@,
                    "腾讯会议"@,
                ],
            },
            StateTransitionView {
                from_state: "S4"@,
                to_state: "S5"@,
                trigger_keywords: seq![
                    "需要验证码确认"@,
                    "动态码发一下"@,
                    "验证码"@,
                ],
            },
        ],
    }
}

/// The risk of the fake customer service script rises with every stage.
pub proof fn lemma_fake_customer_scores_increase()
    ensures
        scores_increase(fake_customer_definition().states),
{
}

/// A machine at the start of the fake customer service script.
pub fn create_fake_customer_machine() -> (sm: GenericStateMachine)
    ensures
        sm@ == initial_machine(fake_customer_definition()),
{
    let mut states: Vec<FraudState> = Vec::new();
    states.push(make_state("S0", "初始", 0, ActionSuggestion::NoAction, ""));
    states.push(make_state("S1", "身份冒充", 30, ActionSuggestion::Monitor, "轻提示：注意核实客服身份"));
    states.push(make_state("S2", "问题制造", 50, ActionSuggestion::Warn, "候选词区警告：正规客服不会私下联系要求操作"));
    states.push(make_state("S3", "诱导操作", 70, ActionSuggestion::Warn, "浮层警告：退款理赔应通过官方渠道，勿扫码操作"));
    states.push(make_state("S4", "屏幕共享", 90, ActionSuggestion::Block, "高危弹窗：客服不会要求屏幕共享！立即停止"));
    states.push(make_state("S5", "索要验证码", 100, ActionSuggestion::Block, "全屏阻断：验证码是最后防线，绝不可告知他人！拨打96110"));
    let mut transitions: Vec<StateTransition> = Vec::new();
    transitions.push(make_transition("S0", "S1", &["淘宝客服", "京东客服", "拼多多客服", "快递客服"]));
    transitions.push(make_transition("S1", "S2", &["商品质量问题", "快递丢失", "订单异常"]));
    transitions.push(make_transition("S2", "S3", &["需要退款", "打开备用金", "扫码退款", "理赔"]));
    transitions.push(make_transition("S3", "S4", &["下载会议", "屏幕共享", "远程协助", "腾讯会议"]));
    transitions.push(make_transition("S4", "S5", &["需要验证码确认", "动态码发一下", "验证码"]));
    let definition = FraudStateMachineDef {
        fraud_type: FraudType::FakeCustomer,
        states: states,
        transitions: transitions,
    };
    assert(definition@ =~~= fake_customer_definition());
    GenericStateMachine::new(definition)
}

} // verus!
