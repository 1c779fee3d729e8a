use vstd::prelude::*;
use super::{
    make_state, make_transition, scores_increase, initial_machine, ActionSuggestion, FraudState,
    FraudStateMachineDef, FraudStateMachineDefView, FraudStateView, FraudType, GenericStateMachine,
    StateTransition, StateTransitionView,
};

verus! {

/// The script of the loan and credit fraud: its stages and the keywords
/// that move a conversation from one stage to the next.
pub open spec fn loan_credit_definition() -> FraudStateMachineDefView {
    FraudStateMachineDefView {
        fraud_type: FraudType::LoanCredit,
        states: seq![
            FraudStateView {
                id: "S0"@,
                name: "初始"@,
                risk_score: 0,
                action_suggestion: ActionSuggestion::NoAction,
                warning_text: ""@,
            },
            FraudStateView {
                id: "S1"@,
                name: "吸引眼球"@,
                risk_score: 30,
                action_suggestion: ActionSuggestion::Monitor,
                warning_text: "轻提示：警惕贷款诈骗"@,
            },
            FraudStateView {
                id: "S2"@,
                name: "索要资料"@,
                risk_score: 50,
                action_suggestion: ActionSuggestion::Warn,
                warning_text: "候选词区警告：正规贷款不需要提前提供银行卡号"@,
            },
            FraudStateView {
                id: "S3"@,
                name: "制造障碍"@,
                risk_score: 80,
                action_suggestion: ActionSuggestion::Block,
                warning_text: "高危弹窗：账户冻结需解冻费是典型骗局"@,
            },
            FraudStateView {
                id: "S4"@,
                name: "连环收费"@,
                risk_score: 100,
                action_suggestion: ActionSuggestion::Block,
                warning_text: "全屏阻断：贷款前收费都是诈骗！拨打96110"@,
            },
        ],
        transitions: seq![
            StateTransitionView {
                from_state: "S0"@,
                to_state: "S1"@,
                trigger_keywords: seq![
                    "无抵押"@,
                    "秒到账"@,
                    "黑户也能贷"@,
                    "低息贷款"@,
                ],
            },
            StateTransitionView {
                from_state: "S1"@,
                to_state: "S2"@,
                trigger_keywords: seq![
                    "身份证正反面"@,
                    "银行卡号"@,
                    "手持身份证"@,
                ],
            },
            StateTransitionView {
                from_state: "S2"@,
                to_state: "S3"@,
                trigger_keywords: seq![
                    "银行卡号填错"@,
                    "账户冻结"@,
                    "需要解冻费"@,
                ],
            },
            StateTransitionView {
                from_state: "S3"@,
                to_state: "S4"@,
                trigger_keywords: seq![
                    "保证金"@,
                    "验证金"@,
                    "手续费"@,
                ],
            },
        ],
    }
}

/// The risk of the loan and credit script rises with every stage.
pub proof fn lemma_loan_credit_scores_increase()
    ensures
        scores_increase(loan_credit_definition().states),
{
}

/// A machine at the start of the loan and credit script.
pub fn create_loan_credit_machine() -> (sm: GenericStateMachine)
    ensures
        sm@ == initial_machine(loan_credit_definition()),
{
    let mut states: Vec<FraudState> = Vec::new();
    states.push(make_state("S0", "初始", 0, ActionSuggestion::NoAction, ""));
    states.push(make_state("S1", "吸引眼球", 30, ActionSuggestion::Monitor, "轻提示：警惕贷款诈骗"));
    states.push(make_state("S2", "索要资料", 50, ActionSuggestion::Warn, "候选词区警告：正规贷款不需要提前提供银行卡号"));
    states.push(make_state("S3", "制造障碍", 80, ActionSuggestion::Block, "高危弹窗：账户冻结需解冻费是典型骗局"));
    states.push(make_state("S4", "连环收费", 100, ActionSuggestion::Block, "全屏阻断：贷款前收费都是诈骗！拨打96110"));
    let mut transitions: Vec<StateTransition> = Vec::new();
    transitions.push(make_transition("S0", "S1", &["无抵押", "秒到账", "黑户也能贷", "低息贷款"]));
    transitions.push(make_transition("S1", "S2", &["身份证正反面", "银行卡号", "手持身份证"]));
    transitions.push(make_transition("S2", "S3", &["银行卡号填错", "账户冻结", "需要解冻费"]));
    transitions.push(make_transition("S3", "S4", &["保证金", "验证金", "手续费"]));
    let definition = FraudStateMachineDef {
        fraud_type: FraudType::LoanCredit,
        states: states,
        transitions: transitions,
    };
    assert(definition@ =~~= loan_credit_definition());
    GenericStateMachine::new(definition)
}

} // verus!
