//! Order-book synchronisation and the take-order flow of a peer-to-peer
//! trading client: tags of inbound events are decoded into orders, kept in a
//! book of pending orders, and a small state machine drives the taking of one.

pub mod book;
pub mod identity;
pub mod message;
pub mod order;
pub mod settings;
pub mod tags;
pub mod take;
pub mod text;
pub mod ui;
