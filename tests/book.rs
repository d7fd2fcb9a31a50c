use mostrui::book::{LoadingState, OrderBook};
use mostrui::order::{Kind, Order, Status};
use mostrui::tags::DecodeError;

fn pending(id: u128, fiat: &str) -> Order {
    let mut o = Order::blank(100);
    o.id = Some(id);
    o.kind = Some(Kind::Sell);
    o.status = Some(Status::Pending);
    o.fiat_code = fiat.to_string();
    o
}

fn tag_list(list: &[&[&str]]) -> Vec<Vec<String>> {
    list.iter().map(|t| t.iter().map(|s| s.to_string()).collect()).collect()
}

#[test]
fn later_projection_replaces_earlier() {
    let mut book = OrderBook::new();
    let mut first = pending(7, "USD");
    first.amount = 1000;
    first.min_amount = Some(1);
    first.max_amount = Some(2);
    book.apply(first);
    let mut second = pending(7, "EUR");
    second.fiat_amount = 30;
    second.payment_method = "bank".to_string();
    book.apply(second);
    assert_eq!(book.len(), 1);
    let o = book.get(0).unwrap();
    assert_eq!(o.fiat_code, "EUR");
    assert_eq!(o.amount, 0);
    assert_eq!(o.min_amount, None);
    assert_eq!(o.max_amount, None);
    assert_eq!(o.fiat_amount, 30);
    assert_eq!(o.payment_method, "bank");
}

#[test]
fn order_leaving_pending_disappears() {
    let mut book = OrderBook::new();
    book.apply(pending(1, "USD"));
    book.apply(pending(2, "USD"));
    let mut settled = pending(1, "USD");
    settled.status = Some(Status::Dispute);
    book.apply(settled);
    assert_eq!(book.len(), 1);
    assert_eq!(book.get(0).unwrap().id, Some(2));
}

#[test]
fn unknown_status_event_never_enters_book() {
    let mut book = OrderBook::new();
    let t = tag_list(&[&["d", "ede61c96-4c13-4519-bf3a-dcf7f1e9d842"], &["k", "sell"], &["s", "expired"]]);
    assert!(book.handle_order_event(1, &t).is_ok());
    let t = tag_list(&[&["d", "ede61c96-4c13-4519-bf3a-dcf7f1e9d843"], &["k", "sell"], &["s", "unheard-of"]]);
    assert!(book.handle_order_event(1, &t).is_ok());
    assert!(book.is_empty());
    assert_eq!(book.selected(), None);
}

#[test]
fn pending_event_then_settled_event() {
    let mut book = OrderBook::new();
    let id = "ede61c96-4c13-4519-bf3a-dcf7f1e9d842";
    book.handle_order_event(1, &tag_list(&[&["d", id], &["s", "pending"]])).unwrap();
    assert_eq!(book.len(), 1);
    assert_eq!(book.loading_state(), LoadingState::Loaded);
    book.handle_order_event(2, &tag_list(&[&["d", id], &["s", "settled"]])).unwrap();
    assert!(book.is_empty());
}

#[test]
fn applying_twice_is_applying_once() {
    let mut once = OrderBook::new();
    let mut twice = OrderBook::new();
    once.apply(pending(3, "ARS"));
    once.apply(pending(4, "USD"));
    twice.apply(pending(3, "ARS"));
    twice.apply(pending(4, "USD"));
    twice.apply(pending(4, "USD"));
    assert_eq!(once.len(), twice.len());
    assert_eq!(once.selected(), twice.selected());
    for i in 0..once.len() {
        let a = once.get(i).unwrap();
        let b = twice.get(i).unwrap();
        assert_eq!(a.id, b.id);
        assert_eq!(a.fiat_code, b.fiat_code);
    }
}

#[test]
fn projection_without_id_is_dropped() {
    let mut book = OrderBook::new();
    let mut o = Order::blank(1);
    o.status = Some(Status::Pending);
    book.apply(o);
    assert!(book.is_empty());
}

#[test]
fn first_entry_is_selected_and_cursor_saturates() {
    let mut book = OrderBook::new();
    assert_eq!(book.selected(), None);
    book.apply(pending(1, "USD"));
    assert_eq!(book.selected(), Some(0));
    book.apply(pending(2, "USD"));
    book.apply(pending(3, "USD"));
    book.scroll_down();
    book.scroll_down();
    book.scroll_down();
    assert_eq!(book.selected(), Some(2));
    book.scroll(-10);
    assert_eq!(book.selected(), Some(0));
    book.scroll(1);
    assert_eq!(book.selected(), Some(1));
    book.scroll_up();
    book.scroll_up();
    assert_eq!(book.selected(), Some(0));
    assert_eq!(book.selected_order().unwrap().id, Some(1));
}

#[test]
fn cursor_is_clamped_when_entries_leave() {
    let mut book = OrderBook::new();
    book.apply(pending(1, "USD"));
    book.apply(pending(2, "USD"));
    book.scroll_down();
    assert_eq!(book.selected(), Some(1));
    let mut gone = pending(2, "USD");
    gone.status = Some(Status::Canceled);
    book.apply(gone);
    assert_eq!(book.selected(), Some(0));
    let mut gone = pending(1, "USD");
    gone.status = Some(Status::Success);
    book.apply(gone);
    assert_eq!(book.selected(), None);
    assert!(book.selected_order().is_none());
}

#[test]
fn malformed_event_leaves_book_alone() {
    let mut book = OrderBook::new();
    book.apply(pending(1, "USD"));
    book.set_loading_state(LoadingState::Loading);
    let r = book.handle_order_event(1, &tag_list(&[&["d", "ede61c96-4c13-4519-bf3a-dcf7f1e9d842"], &["s", "pending"], &["amt", "x"]]));
    assert_eq!(r, Err(DecodeError::MalformedAmount));
    assert_eq!(book.len(), 1);
    assert_eq!(book.loading_state(), LoadingState::Loading);
    assert!(book.get(5).is_none());
}
