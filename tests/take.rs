use mostrui::message::encode_request;
use mostrui::order::{Kind, Order, Status};
use mostrui::tags::order_from_tags;
use mostrui::take::{
    amount_in_range, build_request, order_action, validate_amount, Phase, Step, TakeAction,
    TakeError, TakeRequest, TakeSession, ValidationError,
};

const ORDER_ID: &str = "ede61c96-4c13-4519-bf3a-dcf7f1e9d842";

fn tag_rows(list: &[&[&str]]) -> Vec<Vec<String>> {
    list.iter().map(|t| t.iter().map(|s| s.to_string()).collect()).collect()
}

fn take_id_value() -> u128 {
    uuid::Uuid::parse_str(ORDER_ID).unwrap().as_u128()
}

fn sample_order(fa: &[&str]) -> Order {
    let t = tag_rows(&[
        &["d", ORDER_ID],
        &["k", "sell"],
        &["f", "USD"],
        &["s", "pending"],
        &["amt", "0"],
        fa,
        &["pm", "cash"],
        &["premium", "0"],
    ]);
    order_from_tags(1700000000, &t).unwrap()
}

fn range_order(min: i64, max: i64) -> Order {
    let mut o = Order::blank(0);
    o.id = Some(9);
    o.kind = Some(Kind::Sell);
    o.status = Some(Status::Pending);
    o.min_amount = Some(min);
    o.max_amount = Some(max);
    o
}

#[test]
fn fixed_order_is_submitted_on_confirm() {
    let mut s = TakeSession::new();
    s.select(Some(sample_order(&["fa", "50"])));
    assert_eq!(s.phase, Phase::DetailShown);
    let step = s.confirm(4);
    assert_eq!(s.phase, Phase::Submitting);
    assert_eq!(
        step,
        Step::Submit(TakeRequest { order_id: take_id_value(), trade_index: 4, action: TakeAction::TakeSell, amount: None })
    );
}

#[test]
fn range_order_asks_for_amount() {
    let mut s = TakeSession::new();
    s.select(Some(sample_order(&["fa", "10", "500"])));
    assert_eq!(s.confirm(1), Step::Nothing);
    assert_eq!(s.phase, Phase::AmountInput);
    s.set_entered_amount("5".to_string());
    assert_eq!(s.confirm(1), Step::Rejected(ValidationError::OutOfRange));
    assert_eq!(s.phase, Phase::AmountInput);
    s.set_entered_amount("300".to_string());
    let step = s.confirm(1);
    assert_eq!(s.phase, Phase::Submitting);
    assert_eq!(
        step,
        Step::Submit(TakeRequest { order_id: take_id_value(), trade_index: 1, action: TakeAction::TakeSell, amount: Some(300) })
    );
}

#[test]
fn range_bounds_are_inclusive() {
    let o = range_order(10, 500);
    assert_eq!(validate_amount(&o, "10"), Ok(10));
    assert_eq!(validate_amount(&o, "500"), Ok(500));
    assert_eq!(validate_amount(&o, "9"), Err(ValidationError::OutOfRange));
    assert_eq!(validate_amount(&o, "501"), Err(ValidationError::OutOfRange));
    assert_eq!(validate_amount(&o, "ten"), Err(ValidationError::NotANumber));
    assert_eq!(validate_amount(&o, ""), Err(ValidationError::NotANumber));
}

#[test]
fn rejected_amounts_keep_the_dialog_open() {
    let mut s = TakeSession::new();
    s.select(Some(range_order(10, 500)));
    s.confirm(0);
    for text in ["9", "501", "abc"] {
        s.set_entered_amount(text.to_string());
        assert!(matches!(s.confirm(0), Step::Rejected(_)));
        assert_eq!(s.phase, Phase::AmountInput);
    }
    s.set_entered_amount("abc".to_string());
    assert_eq!(s.confirm(0), Step::Rejected(ValidationError::NotANumber));
}

#[test]
fn missing_bounds_default_to_ten_and_five_hundred() {
    let mut o = Order::blank(0);
    assert!(amount_in_range(&o, 10));
    assert!(amount_in_range(&o, 500));
    assert!(!amount_in_range(&o, 9));
    assert!(!amount_in_range(&o, 501));
    o.min_amount = Some(100);
    assert!(!amount_in_range(&o, 50));
}

#[test]
fn taking_a_buy_order_sells() {
    assert_eq!(order_action(Kind::Buy), TakeAction::TakeBuy);
    assert_eq!(order_action(Kind::Sell), TakeAction::TakeSell);
    let mut o = range_order(1, 2);
    o.kind = Some(Kind::Buy);
    o.max_amount = None;
    let r = build_request(&o, 2, None).unwrap();
    assert_eq!(r.action, TakeAction::TakeBuy);
}

#[test]
fn order_without_id_fails() {
    let mut o = range_order(1, 2);
    o.id = None;
    o.max_amount = None;
    assert_eq!(build_request(&o, 0, None), Err(TakeError::MissingOrderId));
    let mut s = TakeSession::new();
    s.select(Some(o));
    assert_eq!(s.confirm(0), Step::Aborted(TakeError::MissingOrderId));
    assert_eq!(s.phase, Phase::Failed);
}

#[test]
fn order_without_kind_is_not_selectable() {
    let mut o = range_order(1, 2);
    o.kind = None;
    assert_eq!(build_request(&o, 0, None), Err(TakeError::MissingKind));
    let mut s = TakeSession::new();
    s.select(Some(o));
    assert_eq!(s.phase, Phase::Browsing);
    s.select(None);
    assert_eq!(s.phase, Phase::Browsing);
}

#[test]
fn cancel_discards_the_dialog() {
    let mut s = TakeSession::new();
    s.select(Some(range_order(10, 500)));
    s.confirm(0);
    s.set_entered_amount("42".to_string());
    s.cancel();
    assert_eq!(s.phase, Phase::Browsing);
    assert!(s.selected_order.is_none());
    assert_eq!(s.entered_amount, "");
}

#[test]
fn cancel_waits_while_submitting() {
    let mut s = TakeSession::new();
    s.select(Some(sample_order(&["fa", "50"])));
    s.confirm(0);
    s.cancel();
    assert_eq!(s.phase, Phase::Submitting);
}

#[test]
fn outcome_of_submission() {
    let mut s = TakeSession::new();
    s.select(Some(sample_order(&["fa", "50"])));
    s.confirm(0);
    s.submission_finished(false);
    assert_eq!(s.phase, Phase::Failed);
    assert!(matches!(s.confirm(0), Step::Submit(_)));
    assert_eq!(s.phase, Phase::Submitting);
    s.submission_finished(true);
    assert_eq!(s.phase, Phase::Done);
    assert_eq!(s.confirm(0), Step::Nothing);
    assert_eq!(s.phase, Phase::Browsing);
}

#[test]
fn text_is_taken_only_in_amount_dialog() {
    let mut s = TakeSession::new();
    s.set_entered_amount("12".to_string());
    assert_eq!(s.entered_amount, "");
}

#[test]
fn request_is_encoded_as_order_message() {
    let q = TakeRequest { order_id: take_id_value(), trade_index: 3, action: TakeAction::TakeSell, amount: Some(300) };
    let json = encode_request(&q, "npub-identity").unwrap();
    assert!(json.contains(ORDER_ID));
    assert!(json.contains("take-sell"));
    assert!(json.contains("300"));
    assert!(json.contains("npub-identity"));
    let q = TakeRequest { order_id: take_id_value(), trade_index: 3, action: TakeAction::TakeBuy, amount: None };
    let json = encode_request(&q, "k").unwrap();
    assert!(json.contains("take-buy"));
    assert!(!json.contains("amount"));
}

#[test]
fn amount_dialog_always_validates() {
    let mut s = TakeSession::new();
    s.select(Some(range_order(10, 500)));
    s.confirm(0);
    assert_eq!(s.phase, Phase::AmountInput);
    if let Some(o) = s.selected_order.as_mut() {
        o.min_amount = None;
        o.max_amount = None;
    }
    s.set_entered_amount("5".to_string());
    assert_eq!(s.confirm(0), Step::Rejected(ValidationError::OutOfRange));
    assert_eq!(s.phase, Phase::AmountInput);
    s.set_entered_amount("20".to_string());
    assert!(matches!(s.confirm(0), Step::Submit(q) if q.amount == Some(20)));
}
