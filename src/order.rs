//! Orders as the client sees them: the side, the lifecycle status, and the
//! record projected from an event's tags.

use vstd::prelude::*;
use crate::take::DEFAULT_MIN_AMOUNT;
use crate::text::{decimal_string, decimal_text};

verus! {

/// The side that the maker of an order takes.
#[derive(Clone, Copy, Debug, PartialEq, Eq, Structural)]
pub enum Kind {
    Buy,
    Sell,
}

/// Each status that an order can have, in the order of the protocol's list.
#[derive(Clone, Copy, Debug, PartialEq, Eq, Structural)]
pub enum Status {
    Active,
    Canceled,
    CanceledByAdmin,
    SettledByAdmin,
    CompletedByAdmin,
    Dispute,
    Expired,
    FiatSent,
    SettledHoldInvoice,
    Pending,
    Success,
    WaitingBuyerInvoice,
    WaitingPayment,
    CooperativelyCanceled,
}

/// The status at a position of the protocol's list.
pub open spec fn status_at(code: int) -> Option<Status> {
    if code == 0 {
        Some(Status::Active)
    } else if code == 1 {
        Some(Status::Canceled)
    } else if code == 2 {
        Some(Status::CanceledByAdmin)
    } else if code == 3 {
        Some(Status::SettledByAdmin)
    } else if code == 4 {
        Some(Status::CompletedByAdmin)
    } else if code == 5 {
        Some(Status::Dispute)
    } else if code == 6 {
        Some(Status::Expired)
    } else if code == 7 {
        Some(Status::FiatSent)
    } else if code == 8 {
        Some(Status::SettledHoldInvoice)
    } else if code == 9 {
        Some(Status::Pending)
    } else if code == 10 {
        Some(Status::Success)
    } else if code == 11 {
        Some(Status::WaitingBuyerInvoice)
    } else if code == 12 {
        Some(Status::WaitingPayment)
    } else if code == 13 {
        Some(Status::CooperativelyCanceled)
    } else {
        None
    }
}

/// The status at position `code` of the protocol's list.
pub fn status_from_code(code: u8) -> (r: Option<Status>)
    ensures
        r == status_at(code as int),
{
    match code {
        0 => Some(Status::Active),
        1 => Some(Status::Canceled),
        2 => Some(Status::CanceledByAdmin),
        3 => Some(Status::SettledByAdmin),
        4 => Some(Status::CompletedByAdmin),
        5 => Some(Status::Dispute),
        6 => Some(Status::Expired),
        7 => Some(Status::FiatSent),
        8 => Some(Status::SettledHoldInvoice),
        9 => Some(Status::Pending),
        10 => Some(Status::Success),
        11 => Some(Status::WaitingBuyerInvoice),
        12 => Some(Status::WaitingPayment),
        13 => Some(Status::CooperativelyCanceled),
        _ => None,
    }
}

/// An advertised trade, as projected from the tags of the event that
/// announced it. The identifier is the UUID's 128-bit value; `amount == 0`
/// means the market price. The order is a range order when `max_amount` is
/// set, and then `min_amount..=max_amount` bounds the fiat amount in place of
/// `fiat_amount`.
#[derive(Clone, Debug)]
pub struct Order {
    pub id: Option<u128>,
    pub kind: Option<Kind>,
    pub fiat_code: String,
    pub status: Option<Status>,
    pub amount: i64,
    pub min_amount: Option<i64>,
    pub max_amount: Option<i64>,
    pub fiat_amount: i64,
    pub payment_method: String,
    pub premium: i64,
    pub created_at: u64,
}

/// The mathematical value of an [`Order`]: its strings as character sequences.
pub struct OrderView {
    pub id: Option<u128>,
    pub kind: Option<Kind>,
    pub fiat_code: Seq<char>,
    pub status: Option<Status>,
    pub amount: i64,
    pub min_amount: Option<i64>,
    pub max_amount: Option<i64>,
    pub fiat_amount: i64,
    pub payment_method: Seq<char>,
    pub premium: i64,
    pub created_at: u64,
}

impl View for Order {
    type V = OrderView;

    open spec fn view(&self) -> OrderView {
        OrderView {
            id: self.id,
            kind: self.kind,
            fiat_code: self.fiat_code@,
            status: self.status,
            amount: self.amount,
            min_amount: self.min_amount,
            max_amount: self.max_amount,
            fiat_amount: self.fiat_amount,
            payment_method: self.payment_method@,
            premium: self.premium,
            created_at: self.created_at,
        }
    }
}

impl OrderView {
    pub open spec fn is_range(self) -> bool {
        self.max_amount is Some
    }

    pub open spec fn is_pending(self) -> bool {
        self.status == Some(Status::Pending)
    }
}

/// The record that decoding starts from: nothing known but the time.
pub open spec fn blank_order(created_at: u64) -> OrderView {
    OrderView {
        id: None,
        kind: None,
        fiat_code: Seq::empty(),
        status: None,
        amount: 0,
        min_amount: None,
        max_amount: None,
        fiat_amount: 0,
        payment_method: Seq::empty(),
        premium: 0,
        created_at,
    }
}

impl Order {
    /// An order with no field set but its creation time.
    pub fn blank(created_at: u64) -> (r: Order)
        ensures
            r@ == blank_order(created_at),
    {
        Order {
            id: None,
            kind: None,
            fiat_code: String::new(),
            status: None,
            amount: 0,
            min_amount: None,
            max_amount: None,
            fiat_amount: 0,
            payment_method: String::new(),
            premium: 0,
            created_at,
        }
    }

    /// A copy with the same value.
    pub fn copy(&self) -> (r: Order)
        ensures
            r@ == self@,
    {
        Order {
            id: self.id,
            kind: self.kind,
            fiat_code: self.fiat_code.clone(),
            status: self.status,
            amount: self.amount,
            min_amount: self.min_amount,
            max_amount: self.max_amount,
            fiat_amount: self.fiat_amount,
            payment_method: self.payment_method.clone(),
            premium: self.premium,
            created_at: self.created_at,
        }
    }

    /// Whether the fiat amount is chosen by the taker within bounds.
    pub fn is_range_order(&self) -> (r: bool)
        ensures
            r == self@.is_range(),
    {
        self.max_amount.is_some()
    }

    /// The amount of sats, or `Market price` where it is left to the time of
    /// settlement.
    pub fn sats_amount(&self) -> (r: String)
        ensures
            r@ == (if self.amount == 0 {
                "Market price"@
            } else {
                decimal_text(self.amount as int)
            }),
    {
        if self.amount == 0 {
            String::from_str("Market price")
        } else {
            decimal_string(self.amount)
        }
    }

    /// The fiat amount: `min-max` for a range order, where a missing lower
    /// bound reads as the default one, else the fixed amount.
    pub fn fiat_amount(&self) -> (r: String)
        ensures
            r@ == (match self.max_amount {
                Some(max) => decimal_text(
                    match self.min_amount {
                        Some(min) => min as int,
                        None => DEFAULT_MIN_AMOUNT as int,
                    },
                ) + "-"@ + decimal_text(max as int),
                None => decimal_text(self.fiat_amount as int),
            }),
    {
        match self.max_amount {
            Some(max) => {
                let min = match self.min_amount {
                    Some(m) => m,
                    None => DEFAULT_MIN_AMOUNT,
                };
                let mut s = decimal_string(min);
                s.append("-");
                let tail = decimal_string(max);
                s.append(tail.as_str());
                s
            },
            None => decimal_string(self.fiat_amount),
        }
    }

    /// Whether the order is open to be taken.
    pub fn is_pending(&self) -> (r: bool)
        ensures
            r == self@.is_pending(),
    {
        match self.status {
            Some(Status::Pending) => true,
            _ => false,
        }
    }
}

} // verus!
