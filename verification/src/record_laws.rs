//! Laws of the records: what each kind of them does to a connection.

use crate::alert::Alert;
use crate::bounded::{nonce_bytes, psk_bytes, ticket_bytes};
use crate::common::decrypted_read_handler::{
    can_handle, handled, slot_after, slot_model, stored, DecryptedReadHandler, HandlerModel,
};
use crate::common::session_ticket::{capped, session_ticket, SessionTicket, SessionTicketModel};
use crate::config::TlsCipherSuite;
use crate::error::TlsError;
use crate::handshake::new_session_ticket::{NewSessionTicket, TicketModel};
use crate::record::{ApplicationData, ServerHandshake, ServerRecord};
use crate::schedule_laws::{is_expansion, law_ticket_key};
use std::ops::Range;
use vstd::prelude::*;

verus! {

/// Application data is there to be read from its first byte to its last: where it
/// starts and where it ends in the read buffer, and none of it handed out yet.
/// Nothing else changes.
pub proof fn law_application_data<CipherSuite: TlsCipherSuite>(
    h: HandlerModel,
    source_buffer: Range<usize>,
    resumption_secret: Option<Seq<u8>>,
    data: ApplicationData,
)
    requires
        can_handle(source_buffer, ServerRecord::ApplicationData(data)),
    ensures
        ({
            let (after, r) = handled::<CipherSuite>(
                h,
                source_buffer,
                resumption_secret,
                ServerRecord::ApplicationData(data),
            );
            let info = after.buffer_info;
            &&& r == Ok::<(), TlsError>(())
            &&& source_buffer.start + info.offset == data.data.start
            &&& source_buffer.start + info.offset + info.len == data.data.end
            &&& info.consumed == 0
            &&& after.is_open == h.is_open
            &&& after.session_ticket_slot == h.session_ticket_slot
        }),
{
}

/// An alert closes the connection exactly when it is `close_notify`, and is a
/// failure in any case. Nothing else changes.
pub proof fn law_alert<CipherSuite: TlsCipherSuite>(
    h: HandlerModel,
    source_buffer: Range<usize>,
    resumption_secret: Option<Seq<u8>>,
    alert: Alert,
)
    ensures
        ({
            let (after, r) = handled::<CipherSuite>(
                h,
                source_buffer,
                resumption_secret,
                ServerRecord::Alert(alert),
            );
            let closes = alert.description is CloseNotify;
            &&& closes ==> !after.is_open && r == Err::<(), TlsError>(TlsError::ConnectionClosed)
            &&& !closes ==> after.is_open == h.is_open && r == Err::<(), TlsError>(
                TlsError::InternalError,
            )
            &&& after.buffer_info == h.buffer_info
            &&& after.session_ticket_slot == h.session_ticket_slot
        }),
{
}

/// A change of cipher is a failure that changes nothing.
pub proof fn law_change_cipher_spec<CipherSuite: TlsCipherSuite>(
    h: HandlerModel,
    source_buffer: Range<usize>,
    resumption_secret: Option<Seq<u8>>,
)
    ensures
        handled::<CipherSuite>(
            h,
            source_buffer,
            resumption_secret,
            ServerRecord::ChangeCipherSpec,
        ) == (h, Err::<(), TlsError>(TlsError::InternalError)),
{
}

/// The lifetime of a stored ticket is the server's, but no longer than seven days.
pub proof fn law_lifetime(lifetime: u32)
    ensures
        capped(lifetime) <= 7 * 24 * 60 * 60,
        capped(lifetime) <= lifetime,
        capped(lifetime) == lifetime || capped(lifetime) == 7 * 24 * 60 * 60,
{
}

/// What is stored of a ticket: its identity and its age as they came, its
/// lifetime up to seven days, and the key.
pub proof fn law_stored_ticket(t: TicketModel, psk: Seq<u8>)
    ensures
        ({
            let s = session_ticket(t, psk);
            &&& s.ticket == t.ticket
            &&& s.psk == psk
            &&& s.age_add == t.age_add
            &&& t.lifetime <= 604800 ==> s.lifetime_secs == t.lifetime
            &&& t.lifetime > 604800 ==> s.lifetime_secs == 604800
        }),
{
}

/// A ticket that has a nonce of up to 255 bytes and an identity takes the place of
/// what was in the slot, whatever that was, once there is a resumption secret;
/// its key is expanded from that secret under `resumption` and over its nonce.
/// Any other ticket leaves the slot as it was.
pub proof fn law_slot<CipherSuite: TlsCipherSuite>(
    slot: Option<SessionTicketModel>,
    resumption_secret: Option<Seq<u8>>,
    t: TicketModel,
)
    ensures
        ({
            let after = slot_after::<CipherSuite>(slot, resumption_secret, t);
            match resumption_secret {
                Some(secret) if 0 < t.nonce.len() <= 255 && t.ticket.len() > 0 => {
                    &&& after is Some
                    &&& after->Some_0.ticket == t.ticket
                    &&& after->Some_0.age_add == t.age_add
                    &&& t.lifetime <= 604800 ==> after->Some_0.lifetime_secs == t.lifetime
                    &&& t.lifetime > 604800 ==> after->Some_0.lifetime_secs == 604800
                    &&& is_expansion(
                        CipherSuite::spec_hash(),
                        secret,
                        "resumption"@,
                        t.nonce,
                        CipherSuite::spec_hash().output_len() as int,
                        after->Some_0.psk,
                    )
                },
                _ => after == slot,
            }
        }),
{
    law_ticket_key::<CipherSuite>(resumption_secret, t.nonce);
}

/// A ticket never is a failure. It goes to the slot where there is one, and
/// nothing else changes.
pub proof fn law_ticket_record<CipherSuite: TlsCipherSuite>(
    h: HandlerModel,
    source_buffer: Range<usize>,
    resumption_secret: Option<Seq<u8>>,
    ticket: NewSessionTicket,
)
    ensures
        ({
            let (after, r) = handled::<CipherSuite>(
                h,
                source_buffer,
                resumption_secret,
                ServerRecord::Handshake(ServerHandshake::NewSessionTicket(ticket)),
            );
            &&& r == Ok::<(), TlsError>(())
            &&& after.buffer_info == h.buffer_info
            &&& after.is_open == h.is_open
            &&& h.session_ticket_slot is None ==> after.session_ticket_slot is None
            &&& h.session_ticket_slot matches Some(slot) ==> after.session_ticket_slot == Some(
                slot_after::<CipherSuite>(slot, resumption_secret, ticket@),
            )
        }),
{
}

/// What a slot is in the laws is what it holds.
pub proof fn law_slot_view(ticket: SessionTicket)
    ensures
        slot_model(None) is None,
        slot_model(Some(ticket)) == Some(ticket@),
{
}

/// Whether a model shows the parts of a connection as they are.
pub open spec fn shows(m: HandlerModel, h: DecryptedReadHandler<'_>) -> bool {
    &&& m.buffer_info == *h.buffer_info
    &&& m.is_open == *h.is_open
    &&& match (h.session_ticket_slot, m.session_ticket_slot) {
        (None, None) => true,
        (Some(slot), Some(model)) => match (*slot, model) {
            (None, None) => true,
            (Some(t), Some(session)) => {
                &&& session.ticket == ticket_bytes(t.ticket)
                &&& session.psk == psk_bytes(t.psk)
                &&& session.lifetime_secs == t.lifetime_secs
                &&& session.age_add == t.age_add
            },
            _ => false,
        },
        _ => false,
    }
}

/// What a connection is in the laws is what its parts are.
pub proof fn law_handler_view(h: DecryptedReadHandler<'_>)
    ensures
        shows(h.model(), h),
{
}

/// What a ticket leaves in a slot is decided by the ticket and the resumption
/// secret alone where these give it a key, and is what was there where they do
/// not.
pub proof fn law_stored<CipherSuite: TlsCipherSuite>(
    resumption_secret: Option<Seq<u8>>,
    sent: NewSessionTicket,
    before: Option<SessionTicket>,
    after: Option<SessionTicket>,
)
    requires
        stored::<CipherSuite>(resumption_secret, sent, before, after),
    ensures
        match resumption_secret {
            Some(secret) if nonce_bytes(sent.nonce).len() > 0 && ticket_bytes(sent.ticket).len()
                > 0 => {
                &&& after is Some
                &&& ticket_bytes(after->Some_0.ticket) == ticket_bytes(sent.ticket)
                &&& after->Some_0.age_add == sent.age_add
                &&& sent.lifetime <= 604800 ==> after->Some_0.lifetime_secs == sent.lifetime
                &&& sent.lifetime > 604800 ==> after->Some_0.lifetime_secs == 604800
                &&& is_expansion(
                    CipherSuite::spec_hash(),
                    secret,
                    "resumption"@,
                    nonce_bytes(sent.nonce),
                    CipherSuite::spec_hash().output_len() as int,
                    psk_bytes(after->Some_0.psk),
                )
            },
            _ => after == before,
        },
{
    law_ticket_key::<CipherSuite>(resumption_secret, nonce_bytes(sent.nonce));
}

/// What can be handled: application data that starts and ends within the read
/// buffer, alerts, changes of cipher, and tickets; no other handshake message.
pub proof fn law_handled_records(
    source_buffer: Range<usize>,
    data: ApplicationData,
    alert: Alert,
    ticket: NewSessionTicket,
)
    ensures
        can_handle(source_buffer, ServerRecord::ApplicationData(data)) <==> source_buffer.start
            <= data.data.start && data.data.start <= data.data.end && data.data.end
            < source_buffer.end,
        can_handle(source_buffer, ServerRecord::Alert(alert)),
        can_handle(source_buffer, ServerRecord::ChangeCipherSpec),
        can_handle(
            source_buffer,
            ServerRecord::Handshake(ServerHandshake::NewSessionTicket(ticket)),
        ),
{
}

} // verus!
