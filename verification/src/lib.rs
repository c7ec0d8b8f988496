//! Relays GitHub activity notifications, delivered as emails forwarded into a
//! messaging channel, to a destination channel as formatted messages.
//!
//! The library holds the verified core: the classification pipeline that turns
//! a forwarded email into exactly one typed notification, the message
//! formatter, and the decision logic of the poll/retry/cursor cycle. Network
//! and file transports drive these functions from outside the library.

pub mod email;
pub mod errors;
pub mod github;
pub mod notif;
pub mod notifier;
pub mod polling;
pub mod slack;
pub mod store;
pub mod strutil;
