//! The sending side of the STREAM transport protocol.
//!
//! A payment is split into packets, many of which may be on their way at a time. This crate decides
//! when to send how much, makes the packets, takes the replies, and keeps the receipt. It does no
//! input or output of its own: the caller encrypts and sends the packets, asks the congestion
//! controller, and hands in the replies.
pub mod clock;
pub mod conversion;
pub mod delivery;
pub mod effects;
pub mod error;
pub mod history;
pub mod laws;
pub mod packet;
pub mod payment;
pub mod rates;
pub mod rational;
pub mod reply;
pub mod sender;
pub mod text;
