//! Decoding the tags of an order event into an [`Order`].
//!
//! Tags are read from first to last and a later tag of a key overrides an
//! earlier one. A tag with fewer than two elements carries no value and is
//! passed over. An identifier that is not a UUID, a side that is not `buy` or
//! `sell`, and a fiat amount with a decimal point leave the record as it was;
//! an unknown status reads as `Dispute`, so that it never counts as open.
//!
//! A malformed `amt` or `premium` anywhere fails the whole event. Where both
//! occur the error is `MalformedAmount`, wherever the tags stand.

use vstd::prelude::*;
use crate::order::{Kind, Status, Order, OrderView, blank_order, status_at, status_from_code};
use crate::text::{parse_i64, parse_i64_spec, str_equals, contains_char};

verus! {

/// Why the tags of an event give no order.
#[derive(Clone, Copy, Debug, PartialEq, Eq, Structural)]
pub enum DecodeError {
    /// The `amt` tag is not an integer.
    MalformedAmount,
    /// The `premium` tag is not an integer.
    MalformedPremium,
}

/// The 128-bit value of the UUID that a text writes, if it writes one.
pub uninterp spec fn uuid_value_of(s: Seq<char>) -> Option<u128>;

/// The lower-case form of a text, as `str::to_lowercase` gives it.
pub uninterp spec fn lower_of(s: Seq<char>) -> Seq<char>;

/// Whether a text holds only lower-case ASCII letters and hyphens, which
/// lower-casing leaves as they are.
pub open spec fn is_lower_word(s: Seq<char>) -> bool {
    forall|i: int| 0 <= i < s.len() ==> ('a' <= #[trigger] s[i] && s[i] <= 'z') || s[i] == '-'
}

/// The side that a lower-case word names.
pub open spec fn kind_named(s: Seq<char>) -> Option<Kind> {
    if s == "buy"@ {
        Some(Kind::Buy)
    } else if s == "sell"@ {
        Some(Kind::Sell)
    } else {
        None
    }
}

/// The position in the protocol's list of the status that a lower-case word
/// names.
pub open spec fn status_code_named(s: Seq<char>) -> Option<u8> {
    if s == "active"@ {
        Some(0u8)
    } else if s == "canceled"@ {
        Some(1u8)
    } else if s == "canceled-by-admin"@ {
        Some(2u8)
    } else if s == "settled-by-admin"@ {
        Some(3u8)
    } else if s == "completed-by-admin"@ {
        Some(4u8)
    } else if s == "dispute"@ {
        Some(5u8)
    } else if s == "expired"@ {
        Some(6u8)
    } else if s == "fiat-sent"@ {
        Some(7u8)
    } else if s == "settled-hold-invoice"@ {
        Some(8u8)
    } else if s == "pending"@ {
        Some(9u8)
    } else if s == "success"@ {
        Some(10u8)
    } else if s == "waiting-buyer-invoice"@ {
        Some(11u8)
    } else if s == "waiting-payment"@ {
        Some(12u8)
    } else if s == "cooperatively-canceled"@ {
        Some(13u8)
    } else {
        None
    }
}

/// Relies on `uuid::Uuid::parse_str`, which accepts a UUID in any of its
/// text forms (32 hex digits, 36 with hyphens, 38 braced, 45 as a URN, all
/// ASCII), and on `Uuid::as_u128` for its value.
#[verifier::external_body]
fn parse_uuid(s: &str) -> (r: Option<u128>)
    ensures
        r == uuid_value_of(s@),
        r is Some ==> s@.len() == 32 || s@.len() == 36 || s@.len() == 38 || s@.len() == 45,
{
    match uuid::Uuid::parse_str(s) {
        Ok(u) => Some(u.as_u128()),
        Err(_) => None,
    }
}

/// Relies on `mostro_core::order::Kind::from_str`, which lower-cases the
/// text and accepts `buy` and `sell`.
#[verifier::external_body]
fn parse_kind(s: &str) -> (r: Option<Kind>)
    ensures
        r == kind_named(lower_of(s@)),
        is_lower_word(s@) ==> r == kind_named(s@),
{
    match <mostro_core::order::Kind as std::str::FromStr>::from_str(s) {
        Ok(mostro_core::order::Kind::Buy) => Some(Kind::Buy),
        Ok(mostro_core::order::Kind::Sell) => Some(Kind::Sell),
        Err(_) => None,
    }
}

/// Relies on `mostro_core::order::Status::from_str`, which lower-cases the
/// text and accepts the kebab-case name of each status; the status is handed
/// on as its position in the enum's declaration.
#[verifier::external_body]
fn parse_status_code(s: &str) -> (r: Option<u8>)
    ensures
        r == status_code_named(lower_of(s@)),
        is_lower_word(s@) ==> r == status_code_named(s@),
{
    match <mostro_core::order::Status as std::str::FromStr>::from_str(s) {
        Ok(st) => Some(st as u8),
        Err(_) => None,
    }
}

/// The status that a lower-case word names; an unknown word reads as
/// `Dispute`.
pub open spec fn status_named(w: Seq<char>) -> Status {
    match status_code_named(w) {
        Some(c) => match status_at(c as int) {
            Some(st) => st,
            None => Status::Dispute,
        },
        None => Status::Dispute,
    }
}

/// The status that a tag value gives: an unknown word reads as `Dispute`.
pub open spec fn status_of_text(s: Seq<char>) -> Status {
    status_named(lower_of(s))
}

/// Whether `t` is a tag of key `key` whose value is not an integer.
pub open spec fn malformed_integer(t: Seq<Seq<char>>, key: Seq<char>) -> bool {
    t.len() >= 2 && t[0] == key && parse_i64_spec(t[1]) is None
}

/// Whether some tag of key `key` holds a value that is not an integer.
pub open spec fn any_malformed(tags: Seq<Seq<Seq<char>>>, key: Seq<char>) -> bool
    decreases tags.len(),
{
    tags.len() > 0 && (any_malformed(tags.drop_last(), key) || malformed_integer(tags.last(), key))
}

/// What one tag does to the record decoded so far. A malformed `amt` or
/// `premium` changes nothing here: it fails the event as a whole.
pub open spec fn apply_tag(o: OrderView, t: Seq<Seq<char>>) -> OrderView {
    if t.len() < 2 {
        o
    } else {
        let key = t[0];
        let v = t[1];
        if key == "d"@ {
            match uuid_value_of(v) {
                Some(id) => OrderView { id: Some(id), ..o },
                None => o,
            }
        } else if key == "k"@ {
            match kind_named(lower_of(v)) {
                Some(k) => OrderView { kind: Some(k), ..o },
                None => o,
            }
        } else if key == "f"@ {
            OrderView { fiat_code: v, ..o }
        } else if key == "s"@ {
            OrderView { status: Some(status_of_text(v)), ..o }
        } else if key == "amt"@ {
            match parse_i64_spec(v) {
                Some(a) => OrderView { amount: a, ..o },
                None => o,
            }
        } else if key == "fa"@ {
            if v.contains('.') {
                o
            } else if t.len() >= 3 {
                OrderView { min_amount: parse_i64_spec(v), max_amount: parse_i64_spec(t[2]), ..o }
            } else {
                OrderView {
                    fiat_amount: match parse_i64_spec(v) {
                        Some(a) => a,
                        None => 0,
                    },
                    ..o
                }
            }
        } else if key == "pm"@ {
            OrderView { payment_method: v, ..o }
        } else if key == "premium"@ {
            match parse_i64_spec(v) {
                Some(p) => OrderView { premium: p, ..o },
                None => o,
            }
        } else {
            o
        }
    }
}

/// The record that a list of tags gives, read from first to last.
pub open spec fn decoded_record(created_at: u64, tags: Seq<Seq<Seq<char>>>) -> OrderView
    decreases tags.len(),
{
    if tags.len() == 0 {
        blank_order(created_at)
    } else {
        apply_tag(decoded_record(created_at, tags.drop_last()), tags.last())
    }
}

/// What a list of tags decodes to: `MalformedAmount` if any `amt` value is
/// not an integer, else `MalformedPremium` if any `premium` value is not,
/// else the record.
pub open spec fn decode_tags(created_at: u64, tags: Seq<Seq<Seq<char>>>) -> Result<OrderView, DecodeError> {
    if any_malformed(tags, "amt"@) {
        Err(DecodeError::MalformedAmount)
    } else if any_malformed(tags, "premium"@) {
        Err(DecodeError::MalformedPremium)
    } else {
        Ok(decoded_record(created_at, tags))
    }
}

/// The status that a tag value gives; an unknown word gives `Dispute`.
pub fn status_from_text(s: &str) -> (r: Status)
    ensures
        r == status_of_text(s@),
        is_lower_word(s@) ==> r == status_named(s@),
{
    match parse_status_code(s) {
        Some(c) => match status_from_code(c) {
            Some(st) => st,
            None => Status::Dispute,
        },
        None => Status::Dispute,
    }
}

/// Applies one tag to `order`, and tells whether it is a malformed `amt` or
/// `premium`.
fn decode_tag(order: &mut Order, tag: &Vec<String>) -> (r: Option<DecodeError>)
    ensures
        final(order)@ == apply_tag(old(order)@, tag.deep_view()),
        r == (if malformed_integer(tag.deep_view(), "amt"@) {
            Some(DecodeError::MalformedAmount)
        } else if malformed_integer(tag.deep_view(), "premium"@) {
            Some(DecodeError::MalformedPremium)
        } else {
            None
        }),
{
    proof {
        reveal_strlit("d");
        reveal_strlit("k");
        reveal_strlit("f");
        reveal_strlit("s");
        reveal_strlit("amt");
        reveal_strlit("fa");
        reveal_strlit("pm");
        reveal_strlit("premium");
    }
    let ghost t = tag.deep_view();
    if tag.len() < 2 {
        return None;
    }
    assert(t[0] == tag[0]@ && t[1] == tag[1]@);
    let key = tag[0].as_str();
    let v = tag[1].as_str();
    if str_equals(key, "d") {
        match parse_uuid(v) {
            Some(id) => order.id = Some(id),
            None => {},
        }
    } else if str_equals(key, "k") {
        match parse_kind(v) {
            Some(k) => order.kind = Some(k),
            None => {},
        }
    } else if str_equals(key, "f") {
        order.fiat_code = tag[1].clone();
    } else if str_equals(key, "s") {
        order.status = Some(status_from_text(v));
    } else if str_equals(key, "amt") {
        match parse_i64(v) {
            Some(a) => order.amount = a,
            None => return Some(DecodeError::MalformedAmount),
        }
    } else if str_equals(key, "fa") {
        if contains_char(v, '.') {
            return None;
        }
        if tag.len() >= 3 {
            assert(t[2] == tag[2]@);
            order.min_amount = parse_i64(v);
            order.max_amount = parse_i64(tag[2].as_str());
        } else {
            order.fiat_amount = match parse_i64(v) {
                Some(a) => a,
                None => 0,
            };
        }
    } else if str_equals(key, "pm") {
        order.payment_method = tag[1].clone();
    } else if str_equals(key, "premium") {
        match parse_i64(v) {
            Some(p) => order.premium = p,
            None => return Some(DecodeError::MalformedPremium),
        }
    }
    None
}

/// Decodes the tags of an event created at `created_at` into an order.
pub fn order_from_tags(created_at: u64, tags: &Vec<Vec<String>>) -> (r: Result<Order, DecodeError>)
    ensures
        match decode_tags(created_at, tags.deep_view()) {
            Ok(o) => r is Ok && r->Ok_0@ == o,
            Err(e) => r == Err::<Order, DecodeError>(e),
        },
{
    let mut order = Order::blank(created_at);
    let mut bad_amount = false;
    let mut bad_premium = false;
    let mut i: usize = 0;
    while i < tags.len()
        invariant
            i <= tags.len(),
            order@ == decoded_record(created_at, tags.deep_view().take(i as int)),
            bad_amount == any_malformed(tags.deep_view().take(i as int), "amt"@),
            bad_premium == any_malformed(tags.deep_view().take(i as int), "premium"@),
        decreases tags.len() - i,
    {
        let ghost before = tags.deep_view().take(i as int);
        let ghost after = tags.deep_view().take(i + 1);
        assert(after.drop_last() =~= before);
        assert(after.last() == tags[i as int].deep_view());
        proof {
            reveal_strlit("amt");
            reveal_strlit("premium");
            assert("amt"@ != "premium"@) by {
                assert("amt"@.len() != "premium"@.len());
            }
        }
        match decode_tag(&mut order, &tags[i]) {
            Some(DecodeError::MalformedAmount) => bad_amount = true,
            Some(DecodeError::MalformedPremium) => bad_premium = true,
            None => {},
        }
        i = i + 1;
    }
    assert(tags.deep_view().take(i as int) =~= tags.deep_view());
    if bad_amount {
        Err(DecodeError::MalformedAmount)
    } else if bad_premium {
        Err(DecodeError::MalformedPremium)
    } else {
        Ok(order)
    }
}

} // verus!
