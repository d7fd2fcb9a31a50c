//! What each key does on the client's screen: the tabs, the cursor of the
//! order book, and the take-order session.

use vstd::prelude::*;
use crate::book::{OrderBook, scrolled};
use crate::take::{Phase, Step, TakeSession, select_post, confirm_post, cancel_post};

verus! {

/// The number of tabs; they are numbered from 0.
pub const TAB_COUNT: usize = 4;

/// The tab that lists the direct messages.
pub const MESSAGES_TAB: usize = 2;

/// A key press, as far as the screen tells keys apart.
#[derive(Clone, Copy, Debug, PartialEq, Eq, Structural)]
pub enum KeyInput {
    Char(char),
    Up,
    Down,
    Left,
    Right,
    Enter,
    Esc,
    Other,
}

/// What the caller is to do after a key.
#[derive(Clone, Copy, Debug, PartialEq, Eq, Structural)]
pub enum Command {
    Nothing,
    Quit,
    /// Move the cursor of the message list by this many entries.
    ScrollMessages(i64),
    /// Hand the key to the amount being typed.
    EditAmount,
    /// A step of the take-order session.
    Take(Step),
}

/// The screen: the tab shown, whether to quit, and the take-order session.
pub struct Screen {
    pub selected_tab: usize,
    pub should_quit: bool,
    pub session: TakeSession,
}

pub open spec fn book_unchanged(pre: OrderBook, post: OrderBook) -> bool {
    &&& post.entries() == pre.entries()
    &&& post.selection() == pre.selection()
    &&& post.loading() == pre.loading()
}

/// The entry under the cursor of `book`, if any.
pub open spec fn highlighted(book: OrderBook) -> Option<crate::order::OrderView> {
    match book.selection() {
        Some(i) => Some(book.entries()[i]),
        None => None,
    }
}

impl Screen {
    pub open spec fn wf(&self) -> bool {
        self.selected_tab < TAB_COUNT && self.session.wf()
    }

    /// The first tab, no session, not quitting.
    pub fn new() -> (r: Screen)
        ensures
            r.wf(),
            r.selected_tab == 0,
            !r.should_quit,
            r.session.phase == Phase::Browsing,
            r.session.selected_order is None,
            r.session.entered_amount@ == Seq::<char>::empty(),
    {
        Screen { selected_tab: 0, should_quit: false, session: TakeSession::new() }
    }

    /// Handles one key press. `q` quits; `j`/Down and `k`/Up move the cursor
    /// of the list shown; Left and Right change tabs, and leaving a tab to the
    /// right closes the dialog; Enter selects the highlighted order on the
    /// order tab or confirms an open dialog; Esc cancels it; any other key goes
    /// to the amount being typed.
    pub fn handle_event(&mut self, key: KeyInput, book: &mut OrderBook, trade_index: i64) -> (r: Command)
        requires
            old(self).wf(),
            old(book).wf(),
        ensures
            final(self).wf(),
            final(book).wf(),
            final(book).entries() == old(book).entries(),
            final(book).loading() == old(book).loading(),
            if key == KeyInput::Char('q') {
                &&& r == Command::Quit
                &&& final(self).should_quit
                &&& final(self).selected_tab == old(self).selected_tab
                &&& final(self).session == old(self).session
                &&& book_unchanged(*old(book), *final(book))
            } else if key == KeyInput::Char('j') || key == KeyInput::Down || key == KeyInput::Char('k')
                || key == KeyInput::Up {
                let delta: int = if key == KeyInput::Char('j') || key == KeyInput::Down {
                    1
                } else {
                    -1
                };
                &&& final(self).should_quit == old(self).should_quit
                &&& final(self).selected_tab == old(self).selected_tab
                &&& final(self).session == old(self).session
                &&& if old(self).selected_tab == MESSAGES_TAB {
                    &&& r == Command::ScrollMessages(delta as i64)
                    &&& book_unchanged(*old(book), *final(book))
                } else {
                    &&& r == Command::Nothing
                    &&& final(book).selection() == scrolled(old(book).selection(), old(book).entries().len() as int, delta)
                }
            } else if key == KeyInput::Left {
                &&& r == Command::Nothing
                &&& final(self).should_quit == old(self).should_quit
                &&& final(self).selected_tab == (if old(self).selected_tab > 0 {
                    (old(self).selected_tab - 1) as usize
                } else {
                    0usize
                })
                &&& final(self).session == old(self).session
                &&& book_unchanged(*old(book), *final(book))
            } else if key == KeyInput::Right {
                &&& r == Command::Nothing
                &&& final(self).should_quit == old(self).should_quit
                &&& book_unchanged(*old(book), *final(book))
                &&& if old(self).selected_tab + 1 < TAB_COUNT {
                    &&& final(self).selected_tab == old(self).selected_tab + 1
                    &&& cancel_post(old(self).session, final(self).session)
                } else {
                    &&& final(self).selected_tab == old(self).selected_tab
                    &&& final(self).session == old(self).session
                }
            } else if key == KeyInput::Enter {
                &&& final(self).should_quit == old(self).should_quit
                &&& final(self).selected_tab == old(self).selected_tab
                &&& book_unchanged(*old(book), *final(book))
                &&& if old(self).session.phase == Phase::Browsing {
                    &&& r == Command::Nothing
                    &&& if old(self).selected_tab == 0 {
                        select_post(old(self).session, final(self).session, highlighted(*old(book)))
                    } else {
                        final(self).session == old(self).session
                    }
                } else {
                    &&& r is Take
                    &&& confirm_post(old(self).session, final(self).session, trade_index, r->Take_0)
                }
            } else if key == KeyInput::Esc {
                &&& r == Command::Nothing
                &&& final(self).should_quit == old(self).should_quit
                &&& final(self).selected_tab == old(self).selected_tab
                &&& cancel_post(old(self).session, final(self).session)
                &&& book_unchanged(*old(book), *final(book))
            } else {
                &&& r == (if old(self).session.phase == Phase::AmountInput {
                    Command::EditAmount
                } else {
                    Command::Nothing
                })
                &&& final(self).should_quit == old(self).should_quit
                &&& final(self).selected_tab == old(self).selected_tab
                &&& final(self).session == old(self).session
                &&& book_unchanged(*old(book), *final(book))
            },
    {
        let down = key == KeyInput::Char('j') || key == KeyInput::Down;
        let up = key == KeyInput::Char('k') || key == KeyInput::Up;
        if key == KeyInput::Char('q') {
            self.should_quit = true;
            Command::Quit
        } else if down || up {
            if self.selected_tab == MESSAGES_TAB {
                Command::ScrollMessages(if down {
                    1
                } else {
                    -1
                })
            } else {
                if down {
                    book.scroll_down();
                } else {
                    book.scroll_up();
                }
                Command::Nothing
            }
        } else if key == KeyInput::Left {
            if self.selected_tab > 0 {
                self.selected_tab = self.selected_tab - 1;
            }
            Command::Nothing
        } else if key == KeyInput::Right {
            if self.selected_tab + 1 < TAB_COUNT {
                self.selected_tab = self.selected_tab + 1;
                self.session.cancel();
            }
            Command::Nothing
        } else if key == KeyInput::Enter {
            if let Phase::Browsing = self.session.phase {
                if self.selected_tab == 0 {
                    let order = book.selected_order();
                    self.session.select(order);
                }
                Command::Nothing
            } else {
                Command::Take(self.session.confirm(trade_index))
            }
        } else if key == KeyInput::Esc {
            self.session.cancel();
            Command::Nothing
        } else if let Phase::AmountInput = self.session.phase {
            Command::EditAmount
        } else {
            Command::Nothing
        }
    }
}

} // verus!
