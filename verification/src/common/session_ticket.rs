//! What resuming a session takes.
//!
//! A [`SessionTicket`] carries the bytes that the server wants back in a later
//! `ClientHello`, the identity, and the pre-shared key that goes with them (RFC
//! 8446, section 4.6.1):
//!
//! ```text
//! psk = HKDF-Expand-Label(resumption_master_secret,
//!                         "resumption", ticket_nonce, Hash.length)
//! ```

use crate::bounded::{
    psk_as_slice, psk_bytes, psk_extend_from_slice, psk_new, ticket_as_slice, ticket_bytes,
    ticket_extend_from_slice, ticket_new,
};
use crate::handshake::new_session_ticket::{NewSessionTicket, TicketModel};
use vstd::prelude::*;

pub use crate::handshake::new_session_ticket::{MAX_TICKET_LEN, MAX_TICKET_NONCE_LEN};

verus! {

/// The longest pre-shared key: a digest of SHA-384.
pub const MAX_PSK_LEN: usize = 48;

/// The longest lifetime of a ticket, in seconds: seven days (RFC 8446, section
/// 4.6.1).
pub const MAX_TICKET_LIFETIME: u32 = 604800;

/// A ticket and its pre-shared key.
#[derive(Debug)]
pub struct SessionTicket {
    /// The identity, for the `pre_shared_key` extension of a later
    /// `ClientHello`.
    pub ticket: heapless::Vec<u8, MAX_TICKET_LEN>,
    /// The pre-shared key; as long as a digest of the suite.
    pub psk: heapless::Vec<u8, MAX_PSK_LEN>,
    /// How long the ticket is good for, in seconds; at most seven days, 604800,
    /// whatever the server said.
    pub lifetime_secs: u32,
    /// What obscures the age of the ticket; of use with early data only.
    pub age_add: u32,
}

/// What a [`SessionTicket`] holds.
pub struct SessionTicketModel {
    pub ticket: Seq<u8>,
    pub psk: Seq<u8>,
    pub lifetime_secs: u32,
    pub age_add: u32,
}

impl View for SessionTicket {
    type V = SessionTicketModel;

    open spec fn view(&self) -> SessionTicketModel {
        SessionTicketModel {
            ticket: ticket_bytes(self.ticket),
            psk: psk_bytes(self.psk),
            lifetime_secs: self.lifetime_secs,
            age_add: self.age_add,
        }
    }
}

/// The lifetime that a server gave a ticket, or the longest where that is less.
pub open spec fn capped(lifetime: u32) -> u32 {
    if lifetime <= MAX_TICKET_LIFETIME {
        lifetime
    } else {
        MAX_TICKET_LIFETIME
    }
}

/// A server's ticket with its pre-shared key.
pub open spec fn session_ticket(t: TicketModel, psk: Seq<u8>) -> SessionTicketModel {
    SessionTicketModel {
        ticket: t.ticket,
        psk,
        lifetime_secs: capped(t.lifetime),
        age_add: t.age_add,
    }
}

impl SessionTicket {
    /// A server's ticket with its pre-shared key, where the key can be held. The
    /// lifetime is cut to seven days.
    pub fn from_ticket(ticket: NewSessionTicket, psk_slice: &[u8]) -> (r: Option<Self>)
        ensures
            r is Some <==> psk_slice@.len() <= MAX_PSK_LEN,
            r matches Some(s) ==> s@ == session_ticket(ticket@, psk_slice@),
            r matches Some(s) ==> {
                &&& s.ticket == ticket.ticket
                &&& psk_bytes(s.psk) == psk_slice@
                &&& s.age_add == ticket.age_add
                &&& s.lifetime_secs <= 604800
                &&& s.lifetime_secs == ticket.lifetime || ticket.lifetime > 604800
                    && s.lifetime_secs == 604800
            },
    {
        let mut psk = psk_new();
        if psk_extend_from_slice(&mut psk, psk_slice).is_err() {
            return None;
        }
        assert(psk_bytes(psk) =~= psk_slice@);
        let lifetime_secs: u32 = if ticket.lifetime <= MAX_TICKET_LIFETIME {
            ticket.lifetime
        } else {
            MAX_TICKET_LIFETIME
        };
        Some(
            SessionTicket {
                ticket: ticket.ticket,
                psk,
                lifetime_secs,
                age_add: ticket.age_add,
            },
        )
    }
}

impl Clone for SessionTicket {
    fn clone(&self) -> (r: Self)
        ensures
            r@ == self@,
            ticket_bytes(r.ticket) == ticket_bytes(self.ticket),
            psk_bytes(r.psk) == psk_bytes(self.psk),
            r.lifetime_secs == self.lifetime_secs,
            r.age_add == self.age_add,
    {
        let mut ticket = ticket_new();
        let _ticket_fits = ticket_extend_from_slice(&mut ticket, ticket_as_slice(&self.ticket));
        let mut psk = psk_new();
        let _psk_fits = psk_extend_from_slice(&mut psk, psk_as_slice(&self.psk));
        assert(ticket_bytes(ticket) =~= ticket_bytes(self.ticket));
        assert(psk_bytes(psk) =~= psk_bytes(self.psk));
        SessionTicket { ticket, psk, lifetime_secs: self.lifetime_secs, age_add: self.age_add }
    }
}

} // verus!
