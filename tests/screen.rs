use mostrui::book::OrderBook;
use mostrui::order::{Kind, Order, Status};
use mostrui::settings::{
    add_trailing_slash, has_trailing_slash, init_global_settings, settings_file_name, Settings,
    SettingsSlot,
};
use mostrui::take::{Phase, Step};
use mostrui::ui::{Command, KeyInput, Screen};

fn pending_order(id: u128, max: Option<i64>) -> Order {
    let mut o = Order::blank(0);
    o.id = Some(id);
    o.kind = Some(Kind::Buy);
    o.status = Some(Status::Pending);
    o.max_amount = max;
    o
}

#[test]
fn keys_drive_the_take_flow() {
    let mut book = OrderBook::new();
    book.apply(pending_order(1, None));
    book.apply(pending_order(2, Some(500)));
    let mut screen = Screen::new();
    assert_eq!(screen.handle_event(KeyInput::Down, &mut book, 0), Command::Nothing);
    assert_eq!(book.selected(), Some(1));
    screen.handle_event(KeyInput::Enter, &mut book, 0);
    assert_eq!(screen.session.phase, Phase::DetailShown);
    assert_eq!(screen.session.selected_order.as_ref().unwrap().id, Some(2));
    screen.handle_event(KeyInput::Enter, &mut book, 0);
    assert_eq!(screen.session.phase, Phase::AmountInput);
    assert_eq!(screen.handle_event(KeyInput::Char('3'), &mut book, 0), Command::EditAmount);
    screen.session.set_entered_amount("30".to_string());
    let c = screen.handle_event(KeyInput::Enter, &mut book, 8);
    assert!(matches!(c, Command::Take(Step::Submit(q)) if q.amount == Some(30) && q.trade_index == 8));
    assert_eq!(screen.handle_event(KeyInput::Esc, &mut book, 0), Command::Nothing);
    assert_eq!(screen.session.phase, Phase::Submitting);
}

#[test]
fn tabs_quit_and_message_scrolling() {
    let mut book = OrderBook::new();
    let mut screen = Screen::new();
    screen.handle_event(KeyInput::Left, &mut book, 0);
    assert_eq!(screen.selected_tab, 0);
    for _ in 0..5 {
        screen.handle_event(KeyInput::Right, &mut book, 0);
    }
    assert_eq!(screen.selected_tab, 3);
    screen.handle_event(KeyInput::Left, &mut book, 0);
    assert_eq!(screen.selected_tab, 2);
    assert_eq!(screen.handle_event(KeyInput::Char('j'), &mut book, 0), Command::ScrollMessages(1));
    assert_eq!(screen.handle_event(KeyInput::Up, &mut book, 0), Command::ScrollMessages(-1));
    assert_eq!(screen.handle_event(KeyInput::Char('x'), &mut book, 0), Command::Nothing);
    assert_eq!(screen.handle_event(KeyInput::Char('q'), &mut book, 0), Command::Quit);
    assert!(screen.should_quit);
}

#[test]
fn enter_off_the_order_tab_selects_nothing() {
    let mut book = OrderBook::new();
    book.apply(pending_order(1, None));
    let mut screen = Screen::new();
    screen.handle_event(KeyInput::Right, &mut book, 0);
    screen.handle_event(KeyInput::Enter, &mut book, 0);
    assert_eq!(screen.session.phase, Phase::Browsing);
}

#[test]
fn moving_right_closes_the_dialog() {
    let mut book = OrderBook::new();
    book.apply(pending_order(1, Some(9)));
    let mut screen = Screen::new();
    screen.handle_event(KeyInput::Enter, &mut book, 0);
    assert_eq!(screen.session.phase, Phase::DetailShown);
    screen.handle_event(KeyInput::Right, &mut book, 0);
    assert_eq!(screen.session.phase, Phase::Browsing);
}

#[test]
fn settings_paths() {
    assert!(has_trailing_slash("/home/u/.mostrui/"));
    assert!(!has_trailing_slash("/home/u/.mostrui"));
    assert!(!has_trailing_slash(""));
    let mut p = "/tmp/x".to_string();
    add_trailing_slash(&mut p);
    assert_eq!(p, "/tmp/x/");
    assert_eq!(settings_file_name("/home/u/.mostrui"), "/home/u/.mostrui/settings.toml");
    assert_eq!(settings_file_name("/home/u/.mostrui/"), "/home/u/.mostrui/settings.toml");
}

#[test]
fn settings_slot_is_filled_once_and_read() {
    let mut slot = SettingsSlot::new();
    assert!(slot.settings.is_none());
    let s = Settings {
        mostro_pubkey: "abc".to_string(),
        relays: vec!["wss://relay.one".to_string(), "wss://relay.two".to_string()],
        log_level: "info".to_string(),
    };
    init_global_settings(&mut slot, s);
    let got = Settings::get(&slot);
    assert_eq!(got.mostro_pubkey, "abc");
    assert_eq!(got.relays, vec!["wss://relay.one".to_string(), "wss://relay.two".to_string()]);
    assert_eq!(got.log_level, "info");
}
