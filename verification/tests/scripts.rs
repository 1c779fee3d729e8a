use owlguard_mcp::detectors::state_machine::brushing::create_brushing_machine;
use owlguard_mcp::detectors::state_machine::fake_customer::create_fake_customer_machine;
use owlguard_mcp::detectors::state_machine::fake_leader::create_fake_leader_machine;
use owlguard_mcp::detectors::state_machine::fake_police::create_fake_police_machine;
use owlguard_mcp::detectors::state_machine::fake_shopping::create_fake_shopping_machine;
use owlguard_mcp::detectors::state_machine::flight_change::create_flight_change_machine;
use owlguard_mcp::detectors::state_machine::game_trade::create_game_trade_machine;
use owlguard_mcp::detectors::state_machine::investment::create_investment_machine;
use owlguard_mcp::detectors::state_machine::loan_credit::create_loan_credit_machine;
use owlguard_mcp::detectors::state_machine::romance::create_romance_machine;
use owlguard_mcp::detectors::state_machine::{ActionSuggestion, FraudStateMachine};

#[test]
fn test_full_brushing_chain() {
    let mut sm = create_brushing_machine();
    assert_eq!(sm.current_state().id, "S0");

    assert!(sm.transition("你好，想找个兼职吗？手机操作，日结300-500"));
    assert_eq!(sm.current_state().id, "S1");
    assert_eq!(sm.risk_score(), 20);

    assert!(sm.transition("不用押金，我们是正规平台，有营业执照的"));
    assert_eq!(sm.current_state().id, "S2");
    assert_eq!(sm.risk_score(), 40);

    assert!(sm.transition("可以先做一单试试，做完马上返你"));
    assert_eq!(sm.current_state().id, "S3");
    assert_eq!(sm.risk_score(), 60);

    assert!(sm.transition("这单佣金高，需要垫付，做完一起返"));
    assert_eq!(sm.current_state().id, "S4");
    assert_eq!(sm.risk_score(), 80);
    assert_eq!(sm.action_suggestion(), ActionSuggestion::Block);

    assert!(sm.transition("系统卡单了，需要补单才能提现"));
    assert_eq!(sm.current_state().id, "S5");
    assert_eq!(sm.risk_score(), 100);
}

#[test]
fn brushing_test_partial_progression() {
    let mut sm = create_brushing_machine();
    sm.transition("有刷单兼职，日结500");
    assert_eq!(sm.current_state().id, "S1");

    let transitioned = sm.transition("正常聊天内容");
    assert!(!transitioned);
    assert_eq!(sm.current_state().id, "S1");
}

#[test]
fn test_high_risk_at_s4() {
    let mut sm = create_brushing_machine();
    sm.transition("兼职刷单日结");
    sm.transition("正规平台不交押金");
    sm.transition("先做一单试试马上返你");
    sm.transition("需要垫付，这单佣金高");

    assert!(sm.risk_score() >= 80);
    assert_eq!(sm.action_suggestion(), ActionSuggestion::Block);
    assert!(sm.warning_text().contains("垫付"));
}

#[test]
fn test_matched_keywords_tracking() {
    let mut sm = create_brushing_machine();
    sm.transition("手机兼职日结300");
    assert!(sm.matched_keywords().contains(&"兼职".to_string()));
    assert!(sm.matched_keywords().contains(&"日结".to_string()));
}

#[test]
fn brushing_test_reset() {
    let mut sm = create_brushing_machine();
    sm.transition("兼职刷单");
    sm.transition("正规平台");
    assert_ne!(sm.current_state().id, "S0");

    sm.reset();
    assert_eq!(sm.current_state().id, "S0");
    assert!(sm.matched_keywords().is_empty());
}

#[test]
fn fake_customer_test_full_chain() {
    let mut sm = create_fake_customer_machine();
    assert!(sm.transition("您好，我是淘宝客服"));
    assert!(sm.transition("您的商品质量问题需要处理"));
    assert!(sm.transition("需要退款，请扫码退款办理理赔"));
    assert!(sm.transition("请下载会议软件，屏幕共享协助操作"));
    assert!(sm.transition("需要验证码确认身份"));
    assert_eq!(sm.risk_score(), 100);
    assert_eq!(sm.action_suggestion(), ActionSuggestion::Block);
}

#[test]
fn test_stops_at_s3() {
    let mut sm = create_fake_customer_machine();
    sm.transition("我是京东客服");
    sm.transition("快递丢失了");
    sm.transition("需要退款理赔");
    assert_eq!(sm.risk_score(), 70);
}

#[test]
fn test_no_false_positive() {
    let mut sm = create_fake_customer_machine();
    assert!(!sm.transition("今天快递到了"));
    assert_eq!(sm.current_state().id, "S0");
}

#[test]
fn fake_leader_test_full_chain() {
    let mut sm = create_fake_leader_machine();
    assert!(sm.transition("我是王总，换号了存一下"));
    assert!(sm.transition("现在不方便接电话，在开会"));
    assert!(sm.transition("急需用钱，帮我转一笔钱，事后报销"));
    assert!(sm.transition("账号发给你了，快点别耽误"));
    assert_eq!(sm.risk_score(), 100);
}

#[test]
fn fake_leader_test_partial() {
    let mut sm = create_fake_leader_machine();
    sm.transition("我是李总，换号了");
    sm.transition("在外地出差");
    assert_eq!(sm.risk_score(), 50);
}

#[test]
fn fake_leader_test_no_match() {
    let mut sm = create_fake_leader_machine();
    assert!(!sm.transition("领导今天开会说了什么"));
    assert_eq!(sm.current_state().id, "S0");
}

#[test]
fn fake_police_test_full_chain() {
    let mut sm = create_fake_police_machine();
    assert!(sm.transition("我是公安局XX警官"));
    assert!(sm.transition("你涉嫌洗钱，已有通缉令"));
    assert!(sm.transition("保密，不要告诉家人，影响子女前途"));
    assert!(sm.transition("把钱转入安全账户进行资金核查"));
    assert_eq!(sm.risk_score(), 100);
    assert!(sm.warning_text().contains("96110"));
}

#[test]
fn fake_police_test_partial() {
    let mut sm = create_fake_police_machine();
    sm.transition("检察院来电");
    sm.transition("涉嫌洗钱");
    assert_eq!(sm.risk_score(), 60);
}

#[test]
fn fake_police_test_no_match() {
    let mut sm = create_fake_police_machine();
    assert!(!sm.transition("今天去派出所办身份证"));
    assert_eq!(sm.current_state().id, "S0");
}

#[test]
fn fake_shopping_test_full_chain() {
    let mut sm = create_fake_shopping_machine();
    assert!(sm.transition("限时抢购，亏本清仓"));
    assert_eq!(sm.current_state().id, "S1");

    assert!(sm.transition("加微信聊吧，私下交易更优惠"));
    assert_eq!(sm.current_state().id, "S2");

    assert!(sm.transition("先转定金留货，马上被人抢了"));
    assert_eq!(sm.current_state().id, "S3");

    assert!(sm.transition("系统故障，物流延迟"));
    assert_eq!(sm.current_state().id, "S4");
    assert_eq!(sm.risk_score(), 100);
}

#[test]
fn test_no_match_normal_chat() {
    let mut sm = create_fake_shopping_machine();
    assert!(!sm.transition("今天吃什么"));
    assert_eq!(sm.current_state().id, "S0");
}

#[test]
fn test_risk_at_s3() {
    let mut sm = create_fake_shopping_machine();
    sm.transition("亏本清仓一折起");
    sm.transition("私下交易");
    sm.transition("先转定金留货");
    assert_eq!(sm.risk_score(), 80);
    assert_eq!(sm.action_suggestion(), ActionSuggestion::Block);
}

#[test]
fn flight_change_test_full_chain() {
    let mut sm = create_flight_change_machine();
    assert!(sm.transition("您的航班取消，请联系客服"));
    assert!(sm.transition("点击链接办理理赔"));
    assert!(sm.transition("请提供银行卡号和验证码"));
    assert_eq!(sm.risk_score(), 100);
}

#[test]
fn flight_change_test_partial() {
    let mut sm = create_flight_change_machine();
    sm.transition("航班延误了");
    assert_eq!(sm.risk_score(), 30);
}

#[test]
fn flight_change_test_no_match() {
    let mut sm = create_flight_change_machine();
    assert!(!sm.transition("我订了明天的机票"));
    assert_eq!(sm.current_state().id, "S0");
}

#[test]
fn game_trade_test_full_chain() {
    let mut sm = create_game_trade_machine();
    assert!(sm.transition("低价卖号，代练升级"));
    assert!(sm.transition("加QQ聊，走第三方"));
    assert!(sm.transition("先转定金和保证金"));
    assert!(sm.transition("账户冻结，需要再转一笔解冻"));
    assert_eq!(sm.risk_score(), 100);
}

#[test]
fn game_trade_test_partial() {
    let mut sm = create_game_trade_machine();
    sm.transition("低价卖号");
    sm.transition("加QQ聊");
    assert_eq!(sm.risk_score(), 50);
}

#[test]
fn game_trade_test_no_match() {
    let mut sm = create_game_trade_machine();
    assert!(!sm.transition("今天游戏更新了"));
    assert_eq!(sm.current_state().id, "S0");
}

#[test]
fn test_full_investment_chain() {
    let mut sm = create_investment_machine();
    assert!(sm.transition("加群交流，老师分析股票"));
    assert_eq!(sm.current_state().id, "S1");

    assert!(sm.transition("有内幕消息，跟着机构操作"));
    assert_eq!(sm.current_state().id, "S2");

    assert!(sm.transition("今天又赚了5万，学员收益截图给你看"));
    assert_eq!(sm.current_state().id, "S3");

    assert!(sm.transition("扫码下载APP，名额有限"));
    assert_eq!(sm.current_state().id, "S4");

    assert!(sm.transition("赶紧入金充值，跟上这单"));
    assert_eq!(sm.current_state().id, "S5");
    assert_eq!(sm.risk_score(), 100);
    assert_eq!(sm.action_suggestion(), ActionSuggestion::Block);
}

#[test]
fn investment_test_partial_progression() {
    let mut sm = create_investment_machine();
    sm.transition("导师带单，免费诊股");
    assert_eq!(sm.current_state().id, "S1");

    assert!(!sm.transition("今天天气不错"));
    assert_eq!(sm.current_state().id, "S1");
}

#[test]
fn test_risk_escalation() {
    let mut sm = create_investment_machine();
    sm.transition("加群交流");
    assert_eq!(sm.risk_score(), 20);

    sm.transition("有内幕消息");
    assert_eq!(sm.risk_score(), 40);

    sm.transition("今天又赚了");
    assert_eq!(sm.risk_score(), 60);
}

#[test]
fn loan_credit_test_full_chain() {
    let mut sm = create_loan_credit_machine();
    assert!(sm.transition("无抵押秒到账，黑户也能贷"));
    assert!(sm.transition("请提供身份证正反面和银行卡号"));
    assert!(sm.transition("银行卡号填错，账户冻结，需要解冻费"));
    assert!(sm.transition("还需要交保证金和手续费"));
    assert_eq!(sm.risk_score(), 100);
}

#[test]
fn loan_credit_test_partial() {
    let mut sm = create_loan_credit_machine();
    sm.transition("低息贷款，无抵押");
    sm.transition("请提供银行卡号");
    assert_eq!(sm.risk_score(), 50);
}

#[test]
fn loan_credit_test_no_match() {
    let mut sm = create_loan_credit_machine();
    assert!(!sm.transition("银行利率下调了"));
    assert_eq!(sm.current_state().id, "S0");
}

#[test]
fn romance_test_full_chain() {
    let mut sm = create_romance_machine();
    assert!(sm.transition("你好，认识一下，你单身吗"));
    assert_eq!(sm.current_state().id, "S1");

    assert!(sm.transition("亲爱的，想你了"));
    assert_eq!(sm.current_state().id, "S2");

    assert!(sm.transition("我是军人，驻扎海外"));
    assert_eq!(sm.current_state().id, "S3");

    assert!(sm.transition("我发现平台漏洞，带你赚钱"));
    assert_eq!(sm.current_state().id, "S4");

    assert!(sm.transition("今天又赚了5万，截图给你看"));
    assert_eq!(sm.current_state().id, "S5");

    assert!(sm.transition("下载APP充值跟投"));
    assert_eq!(sm.current_state().id, "S6");

    assert!(sm.transition("账户冻结了，再充一笔才能提现"));
    assert_eq!(sm.current_state().id, "S7");
    assert_eq!(sm.risk_score(), 100);
}

#[test]
fn test_partial_at_s4() {
    let mut sm = create_romance_machine();
    sm.transition("认识一下");
    sm.transition("亲爱的宝贝");
    sm.transition("我是海外华人成功人士");
    sm.transition("有内幕消息带你赚钱");
    assert_eq!(sm.risk_score(), 60);
    assert_eq!(sm.action_suggestion(), ActionSuggestion::Warn);
}

#[test]
fn romance_test_no_match() {
    let mut sm = create_romance_machine();
    assert!(!sm.transition("今天天气真好"));
    assert_eq!(sm.current_state().id, "S0");
}

#[test]
fn risk_never_falls_along_a_script() {
    let mut sm = create_brushing_machine();
    let mut last = sm.risk_score();
    for msg in ["兼职", "今天天气", "正规平台", "兼职", "马上返你", "垫付", "你好", "需要补单"] {
        sm.transition(msg);
        assert!(sm.risk_score() >= last);
        last = sm.risk_score();
    }
    assert_eq!(last, 100);
}
