//! The `NewSessionTicket` message.

use crate::bounded::{
    nonce_as_slice, nonce_bytes, nonce_extend_from_slice, nonce_new, ticket_as_slice, ticket_bytes,
    ticket_extend_from_slice, ticket_new,
};
use crate::error::{ParseError, TlsError};
use crate::extensions::{extension_block, NewSessionTicketExtension};
use crate::parse_buffer::{be16_value, be32_value, ParseBuffer};
use vstd::prelude::*;

verus! {

/// The longest nonce that is kept. On the wire it may have 255 bytes; servers
/// send 32 or fewer.
pub const MAX_TICKET_NONCE_LEN: usize = 64;

/// The longest ticket that is kept. Those of common servers have 64 to 256
/// bytes.
pub const MAX_TICKET_LEN: usize = 384;

/// A `NewSessionTicket`, on storage of its own: the message it was read from may
/// be overwritten.
#[derive(Debug)]
pub struct NewSessionTicket {
    /// In seconds.
    pub lifetime: u32,
    pub age_add: u32,
    pub nonce: heapless::Vec<u8, MAX_TICKET_NONCE_LEN>,
    pub ticket: heapless::Vec<u8, MAX_TICKET_LEN>,
}

/// What a `NewSessionTicket` says.
pub struct TicketModel {
    pub lifetime: u32,
    pub age_add: u32,
    pub nonce: Seq<u8>,
    pub ticket: Seq<u8>,
}

/// The ticket that stands for one that could not be kept.
pub open spec fn empty_ticket() -> TicketModel {
    TicketModel { lifetime: 0, age_add: 0, nonce: Seq::empty(), ticket: Seq::empty() }
}

/// What is kept of a ticket: all of it, or nothing where its nonce or itself is
/// too long.
pub open spec fn kept(t: TicketModel) -> TicketModel {
    if t.nonce.len() <= MAX_TICKET_NONCE_LEN && t.ticket.len() <= MAX_TICKET_LEN {
        t
    } else {
        empty_ticket()
    }
}

/// A `NewSessionTicket` at the front of a message: the ticket, and what is left
/// of the message.
pub open spec fn parsed_ticket(b: Seq<u8>) -> (Result<TicketModel, TlsError>, Seq<u8>) {
    let short = Err::<TicketModel, TlsError>(TlsError::ParseError(ParseError::InsufficientBytes));
    let (after_lifetime, after_age_add) = (b.skip(4), b.skip(8));
    if b.len() < 4 {
        (short, b)
    } else if b.len() < 8 {
        (short, after_lifetime)
    } else if b.len() < 9 {
        (short, after_age_add)
    } else {
        let nonce_len = b[8] as int;
        let at_nonce = b.skip(9);
        if at_nonce.len() < nonce_len {
            (Err(TlsError::InvalidNonceLength), at_nonce)
        } else {
            let after_nonce = at_nonce.skip(nonce_len);
            if after_nonce.len() < 2 {
                (short, after_nonce)
            } else {
                let ticket_len = be16_value(after_nonce) as int;
                let at_ticket = after_nonce.skip(2);
                if at_ticket.len() < ticket_len {
                    (Err(TlsError::InvalidTicketLength), at_ticket)
                } else {
                    let (extensions, rest) = extension_block(at_ticket.skip(ticket_len), 1);
                    let t = TicketModel {
                        lifetime: be32_value(b),
                        age_add: be32_value(after_lifetime),
                        nonce: at_nonce.take(nonce_len),
                        ticket: at_ticket.take(ticket_len),
                    };
                    match extensions {
                        Ok(_) => (Ok(kept(t)), rest),
                        Err(e) => (Err(e), rest),
                    }
                }
            }
        }
    }
}

impl View for NewSessionTicket {
    type V = TicketModel;

    open spec fn view(&self) -> TicketModel {
        TicketModel {
            lifetime: self.lifetime,
            age_add: self.age_add,
            nonce: nonce_bytes(self.nonce),
            ticket: ticket_bytes(self.ticket),
        }
    }
}

impl NewSessionTicket {
    /// Takes a `NewSessionTicket` off a message.
    ///
    /// A nonce or a ticket that is too long to be kept is no failure: it would
    /// end the connection for the sake of one ticket. The ticket is then empty,
    /// and there is nothing to resume from.
    pub fn parse(buf: &mut ParseBuffer<'_>) -> (r: Result<NewSessionTicket, TlsError>)
        ensures
            ({
                let (expected, rest) = parsed_ticket(old(buf)@);
                &&& final(buf)@ == rest
                &&& match (r, expected) {
                    (Ok(t), Ok(model)) => {
                        &&& t@ == model
                        &&& t.lifetime == model.lifetime
                        &&& t.age_add == model.age_add
                        &&& nonce_bytes(t.nonce) == model.nonce
                        &&& ticket_bytes(t.ticket) == model.ticket
                    },
                    (Err(e), Err(error)) => e == error,
                    _ => false,
                }
            }),
    {
        let ghost b = buf@;
        let lifetime: u32 = match buf.read_u32() {
            Ok(n) => n,
            Err(e) => return Err(TlsError::from(e)),
        };
        let age_add: u32 = match buf.read_u32() {
            Ok(n) => n,
            Err(e) => return Err(TlsError::from(e)),
        };
        assert(b.skip(4).skip(4) =~= b.skip(8));
        let nonce_length: u8 = match buf.read_u8() {
            Ok(n) => n,
            Err(e) => return Err(TlsError::from(e)),
        };
        assert(b.skip(8).skip(1) =~= b.skip(9));
        let nonce_slice = match buf.slice(nonce_length as usize) {
            Ok(slice) => slice,
            Err(_) => return Err(TlsError::InvalidNonceLength),
        };
        let ticket_length: u16 = match buf.read_u16() {
            Ok(n) => n,
            Err(e) => return Err(TlsError::from(e)),
        };
        let ticket_slice = match buf.slice(ticket_length as usize) {
            Ok(slice) => slice,
            Err(_) => return Err(TlsError::InvalidTicketLength),
        };
        let _extensions = NewSessionTicketExtension::parse_vector::<1>(buf)?;

        let mut nonce = nonce_new();
        if nonce_extend_from_slice(&mut nonce, nonce_slice.as_slice()).is_err() {
            return Ok(Self::empty());
        }
        let mut ticket = ticket_new();
        if ticket_extend_from_slice(&mut ticket, ticket_slice.as_slice()).is_err() {
            return Ok(Self::empty());
        }
        assert(nonce_bytes(nonce) =~= nonce_slice@);
        assert(ticket_bytes(ticket) =~= ticket_slice@);
        Ok(NewSessionTicket { lifetime, age_add, nonce, ticket })
    }

    /// The ticket that stands for one that could not be kept.
    fn empty() -> (r: Self)
        ensures
            r@ == empty_ticket(),
    {
        NewSessionTicket {
            lifetime: 0,
            age_add: 0,
            nonce: nonce_new(),
            ticket: ticket_new(),
        }
    }
}

impl Clone for NewSessionTicket {
    fn clone(&self) -> (r: Self)
        ensures
            r@ == self@,
            r.lifetime == self.lifetime,
            r.age_add == self.age_add,
            nonce_bytes(r.nonce) == nonce_bytes(self.nonce),
            ticket_bytes(r.ticket) == ticket_bytes(self.ticket),
    {
        let mut nonce = nonce_new();
        let _nonce_fits = nonce_extend_from_slice(&mut nonce, nonce_as_slice(&self.nonce));
        let mut ticket = ticket_new();
        let _ticket_fits = ticket_extend_from_slice(&mut ticket, ticket_as_slice(&self.ticket));
        assert(nonce_bytes(nonce) =~= nonce_bytes(self.nonce));
        assert(ticket_bytes(ticket) =~= ticket_bytes(self.ticket));
        NewSessionTicket {
            lifetime: self.lifetime,
            age_add: self.age_add,
            nonce,
            ticket,
        }
    }
}

} // verus!
