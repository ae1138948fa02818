//! Handshake messages.

pub mod binder;
pub mod finished;
pub mod new_session_ticket;
