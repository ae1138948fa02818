//! The key side of a TLS 1.3 client: the ephemeral key exchange, the key
//! schedule of RFC 8446, and the session tickets a server hands out for
//! resumption.
//!
//! Hashing, HKDF, HMAC and the two Diffie-Hellman groups come from outside
//! crates; everything that decides what goes into them and what becomes of the
//! answers is verified here.

pub mod alert;
pub mod bounded;
pub mod common;
pub mod config;
pub mod crypto;
pub mod curve;
pub mod error;
pub mod exchange_laws;
pub mod extensions;
pub mod handshake;
pub mod key_exchange;
pub mod key_schedule;
pub mod key_schedule_model;
pub mod label;
pub mod laws;
pub mod parse_buffer;
pub mod record;
pub mod record_laws;
pub mod schedule_laws;
pub mod transcript;
pub mod wire_laws;
