//! Decrypted records of a server.

use crate::alert::Alert;
use crate::handshake::finished::Finished;
use crate::handshake::new_session_ticket::NewSessionTicket;
use std::ops::Range;
use vstd::prelude::*;

verus! {

/// Application data that was decrypted in place.
pub struct ApplicationData {
    /// The addresses of its first byte and of the byte behind its last.
    pub data: Range<usize>,
}

/// A handshake message of a server.
pub enum ServerHandshake {
    ServerHello,
    EncryptedExtensions,
    NewSessionTicket(NewSessionTicket),
    Certificate,
    CertificateRequest,
    CertificateVerify,
    Finished(Finished),
}

/// A record of a server.
pub enum ServerRecord {
    Handshake(ServerHandshake),
    ChangeCipherSpec,
    Alert(Alert),
    ApplicationData(ApplicationData),
}

} // verus!
