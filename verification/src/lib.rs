//! Core of a minimal language-server session: lifecycle state machine,
//! capability negotiation, translation of document-change events into
//! derived cursor-position notifications, and the ordered outbound
//! message plan for each incoming message.
//!
//! Transport, process startup and the actual sends live outside this
//! library; it works on plain values and decides what to send and in
//! what order.

pub mod dispatch;
pub mod route;
pub mod session;
pub mod text;
pub mod translate;
pub mod types;
