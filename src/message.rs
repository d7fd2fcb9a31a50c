//! The outbound message that takes an order, in the protocol's JSON form.

use vstd::prelude::*;
use crate::take::{TakeAction, TakeRequest};

verus! {

/// Why a take request did not reach the relays.
#[derive(Clone, Copy, Debug, PartialEq, Eq, Structural)]
pub enum SubmissionError {
    Serialization,
    Signing,
    Wrapping,
    Transport,
}

/// The JSON text of the protocol's order message for the take request with
/// these fields, sent on behalf of the identity `identity`; `None` where it
/// cannot be serialised.
pub uninterp spec fn take_message_json(
    order_id: u128,
    identity: Seq<char>,
    action: TakeAction,
    amount: Option<i64>,
) -> Option<Seq<char>>;

/// Relies on `mostro_core::message::Message::new_order` to build the order
/// message (the fiat amount as `Content::Amount`) and on `Message::as_json`
/// to serialise it; `uuid::Uuid::from_u128` gives the identifier back its type.
#[verifier::external_body]
fn order_message_json(order_id: u128, identity: &str, action: TakeAction, amount: Option<i64>) -> (r: Option<String>)
    ensures
        match r {
            Some(s) => take_message_json(order_id, identity@, action, amount) == Some(s@),
            None => take_message_json(order_id, identity@, action, amount) is None,
        },
{
    let action = match action {
        TakeAction::TakeBuy => mostro_core::message::Action::TakeBuy,
        TakeAction::TakeSell => mostro_core::message::Action::TakeSell,
    };
    let content = match amount {
        Some(a) => Some(mostro_core::message::Content::Amount(a)),
        None => None,
    };
    let id = Some(uuid::Uuid::from_u128(order_id));
    let message = mostro_core::message::Message::new_order(id, Some(identity.to_string()), action, content);
    message.as_json().ok()
}

/// The JSON text of the message that carries `request` for the taker whose
/// public identity is `identity`; a message that cannot be serialised is a
/// `Serialization` error.
pub fn encode_request(request: &TakeRequest, identity: &str) -> (r: Result<String, SubmissionError>)
    ensures
        match take_message_json(request.order_id, identity@, request.action, request.amount) {
            Some(j) => r is Ok && r->Ok_0@ == j,
            None => r == Err::<String, SubmissionError>(SubmissionError::Serialization),
        },
{
    match order_message_json(request.order_id, identity, request.action, request.amount) {
        Some(s) => Ok(s),
        None => Err(SubmissionError::Serialization),
    }
}

} // verus!
