//! The take-order session: from a highlighted order through the detail view
//! and, for a range order, the entry of a fiat amount, to a request that is
//! handed out for submission.

use vstd::prelude::*;
use crate::order::{Kind, Order, OrderView};
use crate::text::{parse_i64, parse_i64_spec, parse_int, unsigned_part, is_digit, all_digits, digits_value, digit_value};

verus! {

/// The lower bound used where a range order lacks its own.
pub const DEFAULT_MIN_AMOUNT: i64 = 10;

/// The upper bound used where a range order lacks its own.
pub const DEFAULT_MAX_AMOUNT: i64 = 500;

/// Where a take-order session stands.
#[derive(Clone, Copy, Debug, PartialEq, Eq, Structural)]
pub enum Phase {
    Browsing,
    DetailShown,
    AmountInput,
    Submitting,
    Done,
    Failed,
}

/// The protocol action that takes an order.
#[derive(Clone, Copy, Debug, PartialEq, Eq, Structural)]
pub enum TakeAction {
    TakeBuy,
    TakeSell,
}

/// What is sent to take an order: the order, the taker's trade index, the
/// action, and for a range order the chosen fiat amount.
#[derive(Clone, Copy, Debug, PartialEq, Eq, Structural)]
pub struct TakeRequest {
    pub order_id: u128,
    pub trade_index: i64,
    pub action: TakeAction,
    pub amount: Option<i64>,
}

/// Why an entered amount is refused.
#[derive(Clone, Copy, Debug, PartialEq, Eq, Structural)]
pub enum ValidationError {
    NotANumber,
    OutOfRange,
}

/// Why no request can be made for an order.
#[derive(Clone, Copy, Debug, PartialEq, Eq, Structural)]
pub enum TakeError {
    MissingOrderId,
    MissingKind,
}

/// What the caller is to do after a step of the session.
#[derive(Clone, Copy, Debug, PartialEq, Eq, Structural)]
pub enum Step {
    /// Nothing beyond showing the new phase.
    Nothing,
    /// Send this request, then report the outcome.
    Submit(TakeRequest),
    /// The entered amount was refused; the session waits for another.
    Rejected(ValidationError),
    /// No request could be made; the session has failed.
    Aborted(TakeError),
}

/// The action that takes an order of side `kind`: a sell order is taken with
/// `TakeSell`, which buys, and a buy order with `TakeBuy`, which sells.
pub open spec fn action_for(kind: Kind) -> TakeAction {
    match kind {
        Kind::Sell => TakeAction::TakeSell,
        Kind::Buy => TakeAction::TakeBuy,
    }
}

pub open spec fn lower_bound(o: OrderView) -> i64 {
    match o.min_amount {
        Some(m) => m,
        None => DEFAULT_MIN_AMOUNT,
    }
}

pub open spec fn upper_bound(o: OrderView) -> i64 {
    match o.max_amount {
        Some(m) => m,
        None => DEFAULT_MAX_AMOUNT,
    }
}

/// What an entered text gives for order `o`: the amount, if it is an integer
/// within the order's bounds.
pub open spec fn validated(o: OrderView, text: Seq<char>) -> Result<i64, ValidationError> {
    match parse_i64_spec(text) {
        None => Err(ValidationError::NotANumber),
        Some(v) => if lower_bound(o) <= v && v <= upper_bound(o) {
            Ok(v)
        } else {
            Err(ValidationError::OutOfRange)
        },
    }
}

/// The request that takes order `o`.
pub open spec fn request_for(o: OrderView, trade_index: i64, amount: Option<i64>) -> Result<TakeRequest, TakeError> {
    match o.id {
        None => Err(TakeError::MissingOrderId),
        Some(id) => match o.kind {
            None => Err(TakeError::MissingKind),
            Some(k) => Ok(TakeRequest { order_id: id, trade_index, action: action_for(k), amount }),
        },
    }
}

/// The action that takes an order of side `kind`.
pub fn order_action(kind: Kind) -> (r: TakeAction)
    ensures
        r == action_for(kind),
{
    match kind {
        Kind::Sell => TakeAction::TakeSell,
        Kind::Buy => TakeAction::TakeBuy,
    }
}

/// Whether `v` lies within the order's bounds, `10..=500` standing in for a
/// missing bound.
pub fn amount_in_range(order: &Order, v: i64) -> (r: bool)
    ensures
        r == (lower_bound(order@) <= v && v <= upper_bound(order@)),
{
    let lo = match order.min_amount {
        Some(m) => m,
        None => DEFAULT_MIN_AMOUNT,
    };
    let hi = match order.max_amount {
        Some(m) => m,
        None => DEFAULT_MAX_AMOUNT,
    };
    lo <= v && v <= hi
}

/// Reads an entered amount for `order`: an integer within its bounds.
pub fn validate_amount(order: &Order, text: &str) -> (r: Result<i64, ValidationError>)
    ensures
        r == validated(order@, text@),
{
    match parse_i64(text) {
        None => Err(ValidationError::NotANumber),
        Some(v) => if amount_in_range(order, v) {
            Ok(v)
        } else {
            Err(ValidationError::OutOfRange)
        },
    }
}

/// The request that takes `order`; an order without an identifier or a side
/// cannot be taken.
pub fn build_request(order: &Order, trade_index: i64, amount: Option<i64>) -> (r: Result<TakeRequest, TakeError>)
    ensures
        r == request_for(order@, trade_index, amount),
{
    match order.id {
        None => Err(TakeError::MissingOrderId),
        Some(id) => match order.kind {
            None => Err(TakeError::MissingKind),
            Some(k) => Ok(TakeRequest { order_id: id, trade_index, action: order_action(k), amount }),
        },
    }
}

/// The value of an optional order.
pub open spec fn opt_view(o: Option<Order>) -> Option<OrderView> {
    match o {
        Some(x) => Some(x@),
        None => None,
    }
}

/// The "select" key: from `Browsing`, a highlighted order with a side opens
/// its detail with an empty amount; otherwise nothing changes.
pub open spec fn select_post(pre: TakeSession, post: TakeSession, highlighted: Option<OrderView>) -> bool {
    let opens = pre.phase == Phase::Browsing && highlighted is Some && highlighted->Some_0.kind is Some;
    if opens {
        &&& post.phase == Phase::DetailShown
        &&& post.order() == highlighted->Some_0
        &&& post.entered_amount@ == Seq::<char>::empty()
    } else {
        post == pre
    }
}

/// The "cancel" key: back to browsing, with nothing chosen and no text, from
/// any phase but `Submitting`, which it leaves alone.
pub open spec fn cancel_post(pre: TakeSession, post: TakeSession) -> bool {
    if pre.phase == Phase::Submitting {
        post == pre
    } else {
        &&& post.phase == Phase::Browsing
        &&& post.selected_order is None
        &&& post.entered_amount@ == Seq::<char>::empty()
    }
}

/// The "confirm" key, from `pre` to `post` with step `r`. In the detail view
/// a range order moves on to the amount dialog and a fixed order is submitted
/// at once; in the amount dialog the entered text is always validated, the
/// default bounds standing in for missing ones, and submitted only when it is
/// an amount within them, else the dialog stays open; after a failure the
/// submission is tried again; after success the session goes back to
/// browsing.
pub open spec fn confirm_post(pre: TakeSession, post: TakeSession, trade_index: i64, r: Step) -> bool {
    let o = pre.order();
    match pre.phase {
        Phase::Browsing | Phase::Submitting => {
            &&& r == Step::Nothing
            &&& post.phase == pre.phase
            &&& post.selected_order == pre.selected_order
            &&& post.entered_amount == pre.entered_amount
        },
        Phase::Done => {
            &&& r == Step::Nothing
            &&& post.phase == Phase::Browsing
            &&& post.selected_order is None
            &&& post.entered_amount@ == Seq::<char>::empty()
        },
        Phase::DetailShown => {
            &&& post.selected_order == pre.selected_order
            &&& if o.is_range() {
                &&& r == Step::Nothing
                &&& post.phase == Phase::AmountInput
                &&& post.entered_amount@ == Seq::<char>::empty()
            } else {
                &&& post.entered_amount == pre.entered_amount
                &&& match request_for(o, trade_index, None) {
                    Ok(q) => post.phase == Phase::Submitting && r == Step::Submit(q),
                    Err(e) => post.phase == Phase::Failed && r == Step::Aborted(e),
                }
            }
        },
        Phase::AmountInput | Phase::Failed => {
            &&& post.selected_order == pre.selected_order
            &&& post.entered_amount == pre.entered_amount
            &&& if pre.phase == Phase::AmountInput || o.is_range() {
                match validated(o, pre.entered_amount@) {
                    Err(e) => post.phase == Phase::AmountInput && r == Step::Rejected(e),
                    Ok(v) => match request_for(o, trade_index, Some(v)) {
                        Ok(q) => post.phase == Phase::Submitting && r == Step::Submit(q),
                        Err(e) => post.phase == Phase::Failed && r == Step::Aborted(e),
                    },
                }
            } else {
                match request_for(o, trade_index, None) {
                    Ok(q) => post.phase == Phase::Submitting && r == Step::Submit(q),
                    Err(e) => post.phase == Phase::Failed && r == Step::Aborted(e),
                }
            }
        },
    }
}

/// One take-order interaction. Outside `Browsing` it holds a copy of the order
/// chosen, so that later events do not change it while the dialog is open.
pub struct TakeSession {
    pub phase: Phase,
    pub selected_order: Option<Order>,
    pub entered_amount: String,
}

impl TakeSession {
    pub open spec fn wf(&self) -> bool {
        self.phase != Phase::Browsing ==> self.selected_order is Some
    }

    pub open spec fn order(&self) -> OrderView {
        self.selected_order->Some_0@
    }

    /// A session in `Browsing`, with nothing chosen.
    pub fn new() -> (r: TakeSession)
        ensures
            r.wf(),
            r.phase == Phase::Browsing,
            r.selected_order is None,
            r.entered_amount@ == Seq::<char>::empty(),
    {
        TakeSession { phase: Phase::Browsing, selected_order: None, entered_amount: String::new() }
    }

    /// The "select" key on the highlighted order: from `Browsing`, an order
    /// with a side opens its detail. Otherwise nothing changes.
    pub fn select(&mut self, highlighted: Option<Order>)
        requires
            old(self).wf(),
        ensures
            final(self).wf(),
            select_post(*old(self), *final(self), opt_view(highlighted)),
    {
        if let Phase::Browsing = self.phase {
            if let Some(o) = highlighted {
                if o.kind.is_some() {
                    self.phase = Phase::DetailShown;
                    self.selected_order = Some(o);
                    self.entered_amount = String::new();
                }
            }
        }
    }

    /// Stores the text entered so far; only the amount dialog takes text.
    pub fn set_entered_amount(&mut self, text: String)
        requires
            old(self).wf(),
        ensures
            final(self).wf(),
            final(self).phase == old(self).phase,
            final(self).selected_order == old(self).selected_order,
            final(self).entered_amount@ == (if old(self).phase == Phase::AmountInput {
                text@
            } else {
                old(self).entered_amount@
            }),
    {
        if let Phase::AmountInput = self.phase {
            self.entered_amount = text;
        }
    }

    /// Submits for the chosen order: with the entered amount for a range
    /// order, which must pass validation, else with none.
    fn submit_selected(&mut self, trade_index: i64, with_amount: bool) -> (r: Step)
        requires
            old(self).wf(),
            old(self).phase != Phase::Browsing,
        ensures
            final(self).wf(),
            final(self).selected_order == old(self).selected_order,
            final(self).entered_amount == old(self).entered_amount,
            ({
                let o = old(self).order();
                if with_amount {
                    match validated(o, old(self).entered_amount@) {
                        Err(e) => final(self).phase == Phase::AmountInput && r == Step::Rejected(e),
                        Ok(v) => match request_for(o, trade_index, Some(v)) {
                            Ok(q) => final(self).phase == Phase::Submitting && r == Step::Submit(q),
                            Err(e) => final(self).phase == Phase::Failed && r == Step::Aborted(e),
                        },
                    }
                } else {
                    match request_for(o, trade_index, None) {
                        Ok(q) => final(self).phase == Phase::Submitting && r == Step::Submit(q),
                        Err(e) => final(self).phase == Phase::Failed && r == Step::Aborted(e),
                    }
                }
            }),
    {
        let order = match &self.selected_order {
            Some(o) => o,
            None => {
                return Step::Nothing;
            },
        };
        let amount = if with_amount {
            match validate_amount(order, self.entered_amount.as_str()) {
                Ok(v) => Some(v),
                Err(e) => {
                    self.phase = Phase::AmountInput;
                    return Step::Rejected(e);
                },
            }
        } else {
            None
        };
        match build_request(order, trade_index, amount) {
            Ok(q) => {
                self.phase = Phase::Submitting;
                Step::Submit(q)
            },
            Err(e) => {
                self.phase = Phase::Failed;
                Step::Aborted(e)
            },
        }
    }

    /// The "confirm" key. In the detail view a range order moves on to the
    /// amount dialog and a fixed order is submitted at once; in the amount
    /// dialog the entered text is validated, and submitted only when it is an
    /// amount within the order's bounds; after a failure the submission is
    /// tried again; after success the session goes back to browsing.
    pub fn confirm(&mut self, trade_index: i64) -> (r: Step)
        requires
            old(self).wf(),
        ensures
            final(self).wf(),
            confirm_post(*old(self), *final(self), trade_index, r),
    {
        match self.phase {
            Phase::Browsing | Phase::Submitting => Step::Nothing,
            Phase::Done => {
                self.phase = Phase::Browsing;
                self.selected_order = None;
                self.entered_amount = String::new();
                Step::Nothing
            },
            Phase::DetailShown => {
                let range = match &self.selected_order {
                    Some(o) => o.is_range_order(),
                    None => false,
                };
                if range {
                    self.phase = Phase::AmountInput;
                    self.entered_amount = String::new();
                    Step::Nothing
                } else {
                    self.submit_selected(trade_index, false)
                }
            },
            Phase::AmountInput => self.submit_selected(trade_index, true),
            Phase::Failed => {
                let range = match &self.selected_order {
                    Some(o) => o.is_range_order(),
                    None => false,
                };
                self.submit_selected(trade_index, range)
            },
        }
    }

    /// The "cancel" key: back to browsing from any phase but `Submitting`,
    /// dropping the chosen order and the entered text.
    pub fn cancel(&mut self)
        requires
            old(self).wf(),
        ensures
            final(self).wf(),
            cancel_post(*old(self), *final(self)),
    {
        if let Phase::Submitting = self.phase {
            return;
        }
        self.phase = Phase::Browsing;
        self.selected_order = None;
        self.entered_amount = String::new();
    }

    /// The outcome of a submission: `Done` when it was published, `Failed`
    /// otherwise. Outside `Submitting` nothing changes.
    pub fn submission_finished(&mut self, published: bool)
        requires
            old(self).wf(),
        ensures
            final(self).wf(),
            final(self).selected_order == old(self).selected_order,
            final(self).entered_amount == old(self).entered_amount,
            final(self).phase == (if old(self).phase == Phase::Submitting {
                if published {
                    Phase::Done
                } else {
                    Phase::Failed
                }
            } else {
                old(self).phase
            }),
    {
        if let Phase::Submitting = self.phase {
            self.phase = if published {
                Phase::Done
            } else {
                Phase::Failed
            };
        }
    }
}

/// For every order bounded by `10..=500`, the bounds themselves are accepted,
/// the integers just outside are refused as out of range, and a text that is
/// no integer is refused as such.
pub proof fn lemma_range_order_bounds(o: OrderView)
    requires
        o.min_amount == Some(10i64),
        o.max_amount == Some(500i64),
    ensures
        validated(o, "10"@) == Ok::<i64, ValidationError>(10),
        validated(o, "500"@) == Ok::<i64, ValidationError>(500),
        validated(o, "9"@) == Err::<i64, ValidationError>(ValidationError::OutOfRange),
        validated(o, "501"@) == Err::<i64, ValidationError>(ValidationError::OutOfRange),
        validated(o, "abc"@) == Err::<i64, ValidationError>(ValidationError::NotANumber),
{
    reveal_strlit("10");
    reveal_strlit("500");
    reveal_strlit("9");
    reveal_strlit("501");
    reveal_strlit("abc");
    assert("10"@ =~= seq!['1', '0']);
    assert("500"@ =~= seq!['5', '0', '0']);
    assert("9"@ =~= seq!['9']);
    assert("501"@ =~= seq!['5', '0', '1']);
    lemma_three_digits('5', '0', '0');
    lemma_three_digits('5', '0', '1');
    lemma_two_digits('1', '0');
    lemma_one_digit('9');
    lemma_literal_value("10"@, 10);
    lemma_literal_value("500"@, 500);
    lemma_literal_value("9"@, 9);
    lemma_literal_value("501"@, 501);
    assert(unsigned_part("abc"@) == "abc"@);
    assert(!is_digit("abc"@[0]));
}

/// An amount that validation refuses leaves the session in the amount
/// dialog, with the same order and text, and reports the refusal.
pub proof fn lemma_refused_amount_keeps_dialog(pre: TakeSession, post: TakeSession, trade_index: i64, r: Step)
    requires
        pre.wf(),
        pre.phase == Phase::AmountInput,
        validated(pre.order(), pre.entered_amount@) is Err,
        confirm_post(pre, post, trade_index, r),
    ensures
        post.phase == Phase::AmountInput,
        post.selected_order == pre.selected_order,
        post.entered_amount == pre.entered_amount,
        r == Step::Rejected(validated(pre.order(), pre.entered_amount@)->Err_0),
{
}

proof fn lemma_one_digit(a: char)
    ensures
        digits_value(seq![a]) == digit_value(a),
{
    assert(seq![a].drop_last() =~= Seq::<char>::empty());
    assert(digits_value(Seq::<char>::empty()) == 0);
    assert(seq![a].last() == a);
}

proof fn lemma_two_digits(a: char, b: char)
    ensures
        digits_value(seq![a, b]) == digit_value(a) * 10 + digit_value(b),
{
    lemma_one_digit(a);
    assert(seq![a, b].drop_last() =~= seq![a]);
}

proof fn lemma_three_digits(a: char, b: char, c: char)
    ensures
        digits_value(seq![a, b, c]) == (digit_value(a) * 10 + digit_value(b)) * 10 + digit_value(c),
{
    lemma_two_digits(a, b);
    assert(seq![a, b, c].drop_last() =~= seq![a, b]);
}

proof fn lemma_literal_value(s: Seq<char>, v: int)
    requires
        1 <= s.len() <= 3,
        all_digits(s),
        v == digits_value(s),
    ensures
        parse_int(s) == Some(v),
{
    assert(!is_digit('-') && !is_digit('+'));
    assert(is_digit(s[0]));
    assert(unsigned_part(s) == s);
}
} // verus!
