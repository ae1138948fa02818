//! What a connection keeps between records.

pub mod decrypted_buffer_info;
pub mod decrypted_read_handler;
pub mod session_ticket;
