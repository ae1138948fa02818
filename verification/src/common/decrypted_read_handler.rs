//! What a decrypted record does to a connection.

use crate::alert::AlertDescription;
use crate::bounded::{nonce_as_slice, nonce_bytes, psk_bytes, ticket_as_slice, ticket_bytes};
use crate::common::decrypted_buffer_info::DecryptedBufferInfo;
use crate::common::session_ticket::{session_ticket, SessionTicket, SessionTicketModel};
use crate::config::{hash_len, TlsCipherSuite};
use crate::error::TlsError;
use crate::handshake::new_session_ticket::{NewSessionTicket, TicketModel};
use crate::key_schedule::ReadKeySchedule;
use crate::key_schedule_model::ticket_psk;
use crate::record::{ServerHandshake, ServerRecord};
use std::ops::Range;
use vstd::prelude::*;

verus! {

/// The parts of a connection that a decrypted record can change.
pub struct DecryptedReadHandler<'a> {
    /// The addresses of the first byte of the read buffer, and of the byte
    /// behind its last.
    pub source_buffer: Range<usize>,
    pub buffer_info: &'a mut DecryptedBufferInfo,
    pub is_open: &'a mut bool,
    /// Where the latest ticket goes. `None` where nobody wants to resume.
    pub session_ticket_slot: Option<&'a mut Option<SessionTicket>>,
}

/// What the parts of a connection are.
pub struct HandlerModel {
    pub buffer_info: DecryptedBufferInfo,
    pub is_open: bool,
    pub session_ticket_slot: Option<Option<SessionTicketModel>>,
}

/// What is in a ticket slot.
pub open spec fn slot_model(slot: Option<SessionTicket>) -> Option<SessionTicketModel> {
    match slot {
        Some(t) => Some(t@),
        None => None,
    }
}

/// A ticket slot once a ticket came: the ticket with its pre-shared key, or what
/// was there where the ticket is empty or has no key.
pub open spec fn slot_after<CipherSuite: TlsCipherSuite>(
    slot: Option<SessionTicketModel>,
    resumption_secret: Option<Seq<u8>>,
    t: TicketModel,
) -> Option<SessionTicketModel> {
    match ticket_psk::<CipherSuite>(resumption_secret, t.nonce) {
        Ok(psk) if t.nonce.len() > 0 && t.ticket.len() > 0 => Some(session_ticket(t, psk)),
        _ => slot,
    }
}

/// Whether a record is one that can be handled: application data within the
/// read buffer, a ticket, or something that is no handshake message.
pub open spec fn can_handle(source_buffer: Range<usize>, record: ServerRecord) -> bool {
    match record {
        ServerRecord::ApplicationData(data) => {
            source_buffer.start <= data.data.start <= data.data.end < source_buffer.end
        },
        ServerRecord::Handshake(handshake) => handshake is NewSessionTicket,
        _ => true,
    }
}

/// What a record makes of the parts of a connection, and what is returned.
pub open spec fn handled<CipherSuite: TlsCipherSuite>(
    h: HandlerModel,
    source_buffer: Range<usize>,
    resumption_secret: Option<Seq<u8>>,
    record: ServerRecord,
) -> (HandlerModel, Result<(), TlsError>) {
    match record {
        ServerRecord::ApplicationData(data) => (
            HandlerModel {
                buffer_info: DecryptedBufferInfo {
                    offset: (data.data.start - source_buffer.start) as usize,
                    len: (data.data.end - data.data.start) as usize,
                    consumed: 0,
                },
                ..h
            },
            Ok(()),
        ),
        ServerRecord::Alert(alert) => if alert.description == AlertDescription::CloseNotify {
            (HandlerModel { is_open: false, ..h }, Err(TlsError::ConnectionClosed))
        } else {
            (h, Err(TlsError::InternalError))
        },
        ServerRecord::ChangeCipherSpec => (h, Err(TlsError::InternalError)),
        ServerRecord::Handshake(ServerHandshake::NewSessionTicket(t)) => (
            HandlerModel {
                session_ticket_slot: match h.session_ticket_slot {
                    Some(slot) => Some(slot_after::<CipherSuite>(slot, resumption_secret, t@)),
                    None => None,
                },
                ..h
            },
            Ok(()),
        ),
        ServerRecord::Handshake(_) => arbitrary(),
    }
}

/// Whether a slot holds what a ticket leaves there: its identity, its lifetime up
/// to seven days, its age, and its key. A ticket without a nonce, an identity or
/// a key leaves what was there.
pub open spec fn stored<CipherSuite: TlsCipherSuite>(
    resumption_secret: Option<Seq<u8>>,
    sent: NewSessionTicket,
    before: Option<SessionTicket>,
    after: Option<SessionTicket>,
) -> bool {
    if nonce_bytes(sent.nonce).len() > 0 && ticket_bytes(sent.ticket).len() > 0
        && resumption_secret is Some {
        match after {
            Some(t) => {
                &&& ticket_bytes(t.ticket) == ticket_bytes(sent.ticket)
                &&& ticket_psk::<CipherSuite>(resumption_secret, nonce_bytes(sent.nonce)) == Ok::<
                    Seq<u8>,
                    TlsError,
                >(psk_bytes(t.psk))
                &&& t.lifetime_secs <= 604800
                &&& t.lifetime_secs == sent.lifetime || sent.lifetime > 604800 && t.lifetime_secs
                    == 604800
                &&& t.age_add == sent.age_add
            },
            None => false,
        }
    } else {
        after == before
    }
}

impl<'a> DecryptedReadHandler<'a> {
    /// What the parts are at the moment.
    pub open spec fn model(self) -> HandlerModel {
        HandlerModel {
            buffer_info: *self.buffer_info,
            is_open: *self.is_open,
            session_ticket_slot: match self.session_ticket_slot {
                Some(slot) => Some(slot_model(*slot)),
                None => None,
            },
        }
    }

    /// Takes in a decrypted record.
    ///
    /// Application data is noted for whoever reads next, an alert ends the
    /// connection or the read. A ticket is given its pre-shared key and put in
    /// the slot; where that cannot be, because it is too long or there is no
    /// resumption secret, the connection goes on without it.
    pub fn handle<CipherSuite: TlsCipherSuite>(
        &mut self,
        key_schedule: &mut ReadKeySchedule<CipherSuite>,
        record: ServerRecord,
    ) -> (r: Result<(), TlsError>)
        requires
            can_handle(old(self).source_buffer, record),
        ensures
            (final(self).model(), r) == handled::<CipherSuite>(
                old(self).model(),
                old(self).source_buffer,
                old(key_schedule)@.resumption_secret,
                record,
            ),
            match final(self).model().session_ticket_slot {
                Some(Some(t)) => old(self).model().session_ticket_slot == Some(Some(t))
                    || t.psk.len() == hash_len::<CipherSuite>(),
                _ => true,
            },
            match (record, final(self).model().session_ticket_slot) {
                (
                    ServerRecord::Handshake(ServerHandshake::NewSessionTicket(sent)),
                    Some(Some(t)),
                ) => sent@.nonce.len() > 0 && sent@.ticket.len() > 0 && old(
                    key_schedule,
                )@.resumption_secret is Some ==> t.psk.len() == hash_len::<CipherSuite>(),
                _ => true,
            },
            match record {
                ServerRecord::ApplicationData(data) => {
                    &&& r is Ok
                    &&& old(self).source_buffer.start + final(self).buffer_info.offset
                        == data.data.start
                    &&& data.data.start + final(self).buffer_info.len == data.data.end
                    &&& final(self).buffer_info.consumed == 0
                },
                _ => *final(self).buffer_info == *old(self).buffer_info,
            },
            match record {
                ServerRecord::Alert(alert) if alert.description is CloseNotify => {
                    !*final(self).is_open && r == Err::<(), TlsError>(TlsError::ConnectionClosed)
                },
                _ => *final(self).is_open == *old(self).is_open,
            },
            match record {
                ServerRecord::Alert(alert) => r is Err,
                ServerRecord::ChangeCipherSpec => {
                    r == Err::<(), TlsError>(TlsError::InternalError)
                },
                _ => r is Ok,
            },
            match (old(self).session_ticket_slot, final(self).session_ticket_slot) {
                (Some(before), Some(after)) => match record {
                    ServerRecord::Handshake(ServerHandshake::NewSessionTicket(sent)) => stored::<
                        CipherSuite,
                    >(old(key_schedule)@.resumption_secret, sent, *before, *after),
                    _ => *after == *before,
                },
                _ => true,
            },
            *final(key_schedule) == *old(key_schedule),
            final(self).source_buffer == old(self).source_buffer,
            *final(final(self).buffer_info) == *final(old(self).buffer_info),
            *final(final(self).is_open) == *final(old(self).is_open),
            match (old(self).session_ticket_slot, final(self).session_ticket_slot) {
                (Some(before), Some(after)) => *final(after) == *final(before),
                (None, None) => true,
                _ => false,
            },
    {
        match record {
            ServerRecord::ApplicationData(data) => {
                self.buffer_info.offset = data.data.start - self.source_buffer.start;
                self.buffer_info.len = data.data.end - data.data.start;
                self.buffer_info.consumed = 0;
                Ok(())
            },
            ServerRecord::Alert(alert) => {
                if alert.description == AlertDescription::CloseNotify {
                    *self.is_open = false;
                    Err(TlsError::ConnectionClosed)
                } else {
                    Err(TlsError::InternalError)
                }
            },
            ServerRecord::ChangeCipherSpec => Err(TlsError::InternalError),
            ServerRecord::Handshake(ServerHandshake::NewSessionTicket(ticket)) => {
                let worth_keeping = !nonce_as_slice(&ticket.nonce).is_empty() && !ticket_as_slice(
                    &ticket.ticket,
                ).is_empty();
                if worth_keeping {
                    if let Some(slot) = &mut self.session_ticket_slot {
                        match key_schedule.derive_psk_for_ticket(nonce_as_slice(&ticket.nonce)) {
                            Ok(psk) => {
                                match SessionTicket::from_ticket(ticket, psk.as_slice()) {
                                    Some(kept) => {
                                        **slot = Some(kept);
                                    },
                                    None => {},
                                }
                            },
                            Err(_) => {},
                        }
                    }
                }
                Ok(())
            },
            ServerRecord::Handshake(_) => vstd::pervasive::unreached(),
        }
    }
}

} // verus!
