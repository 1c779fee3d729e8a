use vstd::prelude::*;
use super::{
    make_state, make_transition, scores_increase, initial_machine, ActionSuggestion, FraudState,
    FraudStateMachineDef, FraudStateMachineDefView, FraudStateView, FraudType, GenericStateMachine,
    StateTransition, StateTransitionView,
};

verus! {

/// The script of the brushing (task-scam rebate) fraud: its stages and the keywords
/// that move a conversation from one stage to the next.
pub open spec fn brushing_definition() -> FraudStateMachineDefView {
    FraudStateMachineDefView {
        fraud_type: FraudType::Brushing,
        states: seq![
            FraudStateView {
                id: "S0"@,
                name: "初始"@,
                risk_score: 0,
                action_suggestion: ActionSuggestion::NoAction,
                warning_text: ""@,
            },
            FraudStateView {
                id: "S1"@,
                name: "诱饵抛出"@,
                risk_score: 20,
                action_suggestion: ActionSuggestion::Monitor,
                warning_text: "轻提示：警惕刷单诈骗"@,
            },
            FraudStateView {
                id: "S2"@,
                name: "信任建立"@,
                risk_score: 40,
                action_suggestion: ActionSuggestion::Warn,
                warning_text: "候选词区变色警告：对方正在建立信任，刷单本身就是违法行为"@,
            },
            FraudStateView {
                id: "S3"@,
                name: "小额返利"@,
                risk_score: 60,
                action_suggestion: ActionSuggestion::Warn,
                warning_text: "浮层警告：小额返利是诱饵，切勿继续投入资金"@,
            },
            FraudStateView {
                id: "S4"@,
                name: "诱导垫付"@,
                risk_score: 80,
                action_suggestion: ActionSuggestion::Block,
                warning_text: "高危弹窗阻断：检测到垫付要求，这是刷单诈骗核心特征！立即停止对话"@,
            },
            FraudStateView {
                id: "S5"@,
                name: "连环套"@,
                risk_score: 100,
                action_suggestion: ActionSuggestion::Block,
                warning_text: "全屏红屏+强制暂停：已进入连环诈骗阶段，切勿再转账！拨打96110求助"@,
            },
        ],
        transitions: seq![
            StateTransitionView {
                from_state: "S0"@,
                to_state: "S1"@,
                trigger_keywords: seq![
                    "兼职"@,
                    "日结"@,
                    "宝妈可做"@,
                    "手机操作"@,
                    "刷单"@,
                    "返利"@,
                    "佣金"@,
                    "任务单"@,
                    "派单员"@,
                    "抢单"@,
                    "做任务"@,
                ],
            },
            StateTransitionView {
                from_state: "S1"@,
                to_state: "S2"@,
                trigger_keywords: seq![
                    "正规平台"@,
                    "有营业执照"@,
                    "截图给你看"@,
                    "不交押金"@,
                    "不收押金"@,
                ],
            },
            StateTransitionView {
                from_state: "S2"@,
                to_state: "S3"@,
                trigger_keywords: seq![
                    "先做一单试试"@,
                    "马上返你"@,
                    "已到账"@,
                    "截图给你"@,
                    "小额试单"@,
                ],
            },
            StateTransitionView {
                from_state: "S3"@,
                to_state: "S4"@,
                trigger_keywords: seq![
                    "垫付"@,
                    "佣金高"@,
                    "做完一起返"@,
                    "需要垫付"@,
                    "这单佣金高"@,
                ],
            },
            StateTransitionView {
                from_state: "S4"@,
                to_state: "S5"@,
                trigger_keywords: seq![
                    "系统卡单"@,
                    "需要补单"@,
                    "再充一笔才能提现"@,
                    "账户冻结"@,
                    "解冻费"@,
                ],
            },
        ],
    }
}

/// The risk of the brushing (task-scam rebate) script rises with every stage.
pub proof fn lemma_brushing_scores_increase()
    ensures
        scores_increase(brushing_definition().states),
{
}

/// A machine at the start of the brushing (task-scam rebate) script.
pub fn create_brushing_machine() -> (sm: GenericStateMachine)
    ensures
        sm@ == initial_machine(brushing_definition()),
{
    let mut states: Vec<FraudState> = Vec::new();
    states.push(make_state("S0", "初始", 0, ActionSuggestion::NoAction, ""));
    states.push(make_state("S1", "诱饵抛出", 20, ActionSuggestion::Monitor, "轻提示：警惕刷单诈骗"));
    states.push(make_state("S2", "信任建立", 40, ActionSuggestion::Warn, "候选词区变色警告：对方正在建立信任，刷单本身就是违法行为"));
    states.push(make_state("S3", "小额返利", 60, ActionSuggestion::Warn, "浮层警告：小额返利是诱饵，切勿继续投入资金"));
    states.push(make_state("S4", "诱导垫付", 80, ActionSuggestion::Block, "高危弹窗阻断：检测到垫付要求，这是刷单诈骗核心特征！立即停止对话"));
    states.push(make_state("S5", "连环套", 100, ActionSuggestion::Block, "全屏红屏+强制暂停：已进入连环诈骗阶段，切勿再转账！拨打96110求助"));
    let mut transitions: Vec<StateTransition> = Vec::new();
    transitions.push(make_transition("S0", "S1", &["兼职", "日结", "宝妈可做", "手机操作", "刷单", "返利", "佣金", "任务单", "派单员", "抢单", "做任务"]));
    transitions.push(make_transition("S1", "S2", &["正规平台", "有营业执照", "截图给你看", "不交押金", "不收押金"]));
    transitions.push(make_transition("S2", "S3", &["先做一单试试", "马上返你", "已到账", "截图给你", "小额试单"]));
    transitions.push(make_transition("S3", "S4", &["垫付", "佣金高", "做完一起返", "需要垫付", "这单佣金高"]));
    transitions.push(make_transition("S4", "S5", &["系统卡单", "需要补单", "再充一笔才能提现", "账户冻结", "解冻费"]));
    let definition = FraudStateMachineDef {
        fraud_type: FraudType::Brushing,
        states: states,
        transitions: transitions,
    };
    assert(definition@ =~~= brushing_definition());
    GenericStateMachine::new(definition)
}

} // verus!
