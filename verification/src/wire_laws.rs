//! Laws of the messages: what is read of them, byte by byte.

use crate::bounded::{nonce_bytes, psk_bytes, ticket_bytes};
use crate::common::session_ticket::SessionTicket;
use crate::error::{ParseError, TlsError};
use crate::extensions::{extension_block, extension_list, views, NewSessionTicketExtension};
use crate::handshake::new_session_ticket::{kept, parsed_ticket, NewSessionTicket, TicketModel};
use crate::parse_buffer::{be16_value, be32_value};
use vstd::prelude::*;

verus! {

/// A number at the front of a message adds up from its bytes.
pub proof fn law_numbers(b: Seq<u8>)
    ensures
        be16_value(b) == b[0] * 256 + b[1],
        be32_value(b) == ((b[0] * 256 + b[1]) * 256 + b[2]) * 256 + b[3],
{
}

/// What a ticket is in the laws is what its fields hold.
pub proof fn law_ticket_view(t: NewSessionTicket, s: SessionTicket)
    ensures
        t@.lifetime == t.lifetime,
        t@.age_add == t.age_add,
        t@.nonce == nonce_bytes(t.nonce),
        t@.ticket == ticket_bytes(t.ticket),
        s@.ticket == ticket_bytes(s.ticket),
        s@.psk == psk_bytes(s.psk),
        s@.lifetime_secs == s.lifetime_secs,
        s@.age_add == s.age_add,
{
}

/// What a list of extensions is in the laws is what its members hold, in order.
pub proof fn law_extension_views(extensions: Seq<NewSessionTicketExtension>)
    ensures
        views(extensions).len() == extensions.len(),
        forall|i: int|
            0 <= i < extensions.len() ==> #[trigger] views(extensions)[i]
                == match extensions[i] {
                NewSessionTicketExtension::EarlyData(data) => data@,
            },
{
}

/// Extensions on the wire, one behind the other: a type, the length of the data,
/// and the data.
pub open spec fn list_of(extensions: Seq<(u16, Seq<u8>)>) -> Seq<u8>
    decreases extensions.len(),
{
    if extensions.len() == 0 {
        Seq::empty()
    } else {
        let (kind, data) = extensions[0];
        seq![
            (kind / 256) as u8,
            (kind % 256) as u8,
            (data.len() / 256) as u8,
            (data.len() % 256) as u8,
        ] + data + list_of(extensions.drop_first())
    }
}

/// The data of the `early_data` extensions, type 42, in order.
pub open spec fn early_data_of(extensions: Seq<(u16, Seq<u8>)>) -> Seq<Seq<u8>>
    decreases extensions.len(),
{
    if extensions.len() == 0 {
        Seq::empty()
    } else {
        let (kind, data) = extensions[0];
        let others = early_data_of(extensions.drop_first());
        if kind == 42 {
            seq![data] + others
        } else {
            others
        }
    }
}

/// Whether bytes break off within an extension.
pub open spec fn breaks_off(rest: Seq<u8>) -> bool {
    0 < rest.len() < 4 || rest.len() >= 4 && rest.len() < 4 + rest[2] * 256 + rest[3]
}

/// Whether data can be in an extension.
pub open spec fn can_be_sent(extensions: Seq<(u16, Seq<u8>)>) -> bool {
    forall|i: int| 0 <= i < extensions.len() ==> (#[trigger] extensions[i]).1.len() <= 0xffff
}

/// The list of some extensions, with others found before.
proof fn lemma_list(extensions: Seq<(u16, Seq<u8>)>, rest: Seq<u8>, found: Seq<Seq<u8>>, max: nat)
    requires
        can_be_sent(extensions),
        rest.len() == 0 || breaks_off(rest),
        found.len() <= max,
    ensures
        extension_list(list_of(extensions) + rest, found, max) == (if found.len() + early_data_of(
            extensions,
        ).len() > max {
            Err::<Seq<Seq<u8>>, TlsError>(TlsError::DecodeError)
        } else if rest.len() > 0 {
            Err(TlsError::ParseError(ParseError::InsufficientBytes))
        } else {
            Ok(found + early_data_of(extensions))
        }),
    decreases extensions.len(),
{
    let b = list_of(extensions) + rest;
    if extensions.len() == 0 {
        assert(b =~= rest);
        assert(found + early_data_of(extensions) =~= found);
        if rest.len() >= 4 {
            assert(rest.skip(2)[0] == rest[2] && rest.skip(2)[1] == rest[3]);
        }
    } else {
        let (kind, data) = extensions[0];
        let others = extensions.drop_first();
        assert(extensions[0].1.len() <= 0xffff);
        assert forall|i: int| 0 <= i < others.len() implies (#[trigger] others[i]).1.len()
            <= 0xffff by {
            assert(others[i] == extensions[i + 1]);
        }
        let head = seq![
            (kind / 256) as u8,
            (kind % 256) as u8,
            (data.len() / 256) as u8,
            (data.len() % 256) as u8,
        ];
        let tail = list_of(others) + rest;
        assert(b =~= head + data + tail);
        assert(b[0] == head[0] && b[1] == head[1]);
        assert(b.skip(2)[0] == head[2] && b.skip(2)[1] == head[3]);
        let end = 4 + data.len() as int;
        assert(b.skip(end) =~= tail);
        assert(b.subrange(4, end) =~= data);
        if kind == 42 {
            if found.len() < max {
                lemma_list(others, rest, found.push(data), max);
                assert(found.push(data) + early_data_of(others) =~= found + early_data_of(
                    extensions,
                ));
            }
        } else {
            lemma_list(others, rest, found, max);
        }
    }
}

/// Reading a list of extensions gives back the data of those that are
/// `early_data`, in order, and passes over the others. It fails where these are
/// more than there may be, and else where the list breaks off.
pub proof fn law_extension_list(extensions: Seq<(u16, Seq<u8>)>, rest: Seq<u8>, max: nat)
    requires
        can_be_sent(extensions),
        rest.len() == 0 || breaks_off(rest),
    ensures
        extension_list(list_of(extensions) + rest, Seq::empty(), max) == (if early_data_of(
            extensions,
        ).len() > max {
            Err::<Seq<Seq<u8>>, TlsError>(TlsError::DecodeError)
        } else if rest.len() > 0 {
            Err(TlsError::ParseError(ParseError::InsufficientBytes))
        } else {
            Ok(early_data_of(extensions))
        }),
{
    lemma_list(extensions, rest, Seq::empty(), max);
    assert(Seq::<Seq<u8>>::empty() + early_data_of(extensions) =~= early_data_of(extensions));
}

/// Every list of bytes is one of extensions, up to where it breaks off.
pub proof fn law_every_list_is_covered(b: Seq<u8>)
    ensures
        exists|extensions: Seq<(u16, Seq<u8>)>, rest: Seq<u8>|
            {
                &&& can_be_sent(extensions)
                &&& rest.len() == 0 || breaks_off(rest)
                &&& b == #[trigger] (list_of(extensions) + rest)
            },
    decreases b.len(),
{
    if b.len() == 0 || breaks_off(b) {
        let none = Seq::<(u16, Seq<u8>)>::empty();
        assert(list_of(none) + b =~= b);
        assert(can_be_sent(none));
    } else {
        let kind = (b[0] * 256 + b[1]) as u16;
        let end = 4 + b[2] * 256 + b[3];
        let data = b.subrange(4, end);
        law_every_list_is_covered(b.skip(end));
        let (others, rest) = choose|extensions: Seq<(u16, Seq<u8>)>, rest: Seq<u8>|
            {
                &&& can_be_sent(extensions)
                &&& rest.len() == 0 || breaks_off(rest)
                &&& b.skip(end) == #[trigger] (list_of(extensions) + rest)
            };
        let all = seq![(kind, data)] + others;
        assert(all.drop_first() =~= others);
        assert(all[0] == (kind, data));
        assert(can_be_sent(all)) by {
            assert forall|i: int| 0 <= i < all.len() implies (#[trigger] all[i]).1.len()
                <= 0xffff by {
                if i > 0 {
                    assert(all[i] == others[i - 1]);
                }
            }
        }
        let head = seq![
            (kind / 256) as u8,
            (kind % 256) as u8,
            (data.len() / 256) as u8,
            (data.len() % 256) as u8,
        ];
        assert(list_of(all) == head + data + list_of(others));
        assert(head =~= b.take(4));
        assert(head + data + (list_of(others) + rest) =~= b);
        assert(list_of(all) + rest =~= b);
    }
}

/// A block of extensions is a list behind its length in two bytes; what comes
/// behind the list is left.
pub proof fn law_extension_block(b: Seq<u8>, max: nat)
    ensures
        ({
            let (r, rest) = extension_block(b, max);
            let end = 2 + b[0] * 256 + b[1];
            if b.len() < 2 {
                r == Err::<Seq<Seq<u8>>, TlsError>(TlsError::InvalidExtensionsLength) && rest == b
            } else if b.len() < end {
                r == Err::<Seq<Seq<u8>>, TlsError>(
                    TlsError::ParseError(ParseError::InsufficientBytes),
                ) && rest == b.subrange(2, b.len() as int)
            } else {
                r == extension_list(b.subrange(2, end), Seq::empty(), max) && rest == b.subrange(
                    end,
                    b.len() as int,
                )
            }
        }),
{
    if b.len() >= 2 {
        assert(b.skip(2) =~= b.subrange(2, b.len() as int));
        let end = 2 + b[0] * 256 + b[1];
        if b.len() >= end {
            assert(b.skip(2).take(end - 2) =~= b.subrange(2, end));
            assert(b.skip(2).skip(end - 2) =~= b.subrange(end, b.len() as int));
        }
    }
}

/// A ticket is kept whole where its nonce has at most 64 bytes and it has at most
/// 384; else nothing of it is.
pub proof fn law_kept_whole_or_not_at_all(t: TicketModel)
    ensures
        t.nonce.len() <= 64 && t.ticket.len() <= 384 ==> kept(t) == t,
        t.nonce.len() > 64 || t.ticket.len() > 384 ==> {
            &&& kept(t).lifetime == 0 && kept(t).age_add == 0
            &&& kept(t).nonce.len() == 0 && kept(t).ticket.len() == 0
        },
{
}

/// Where the fields of a `NewSessionTicket` lie, what is read of them, which
/// field each failure is about, and what is left of the message.
pub proof fn law_ticket_fields(b: Seq<u8>)
    ensures
        ({
            let (r, rest) = parsed_ticket(b);
            let short = Err::<TicketModel, TlsError>(
                TlsError::ParseError(ParseError::InsufficientBytes),
            );
            let nonce_len = b[8] as int;
            let at_ticket = 11 + nonce_len;
            let ticket_len = b[at_ticket - 2] * 256 + b[at_ticket - 1];
            let at_list = at_ticket + ticket_len + 2;
            let end = at_list + b[at_list - 2] * 256 + b[at_list - 1];
            if b.len() < 9 {
                r == short && rest == b.skip(
                    if b.len() < 4 {
                        0
                    } else if b.len() < 8 {
                        4
                    } else {
                        8
                    },
                )
            } else if b.len() < 9 + nonce_len {
                r == Err::<TicketModel, TlsError>(TlsError::InvalidNonceLength) && rest == b.skip(9)
            } else if b.len() < at_ticket {
                r == short && rest == b.skip(9 + nonce_len)
            } else if b.len() < at_ticket + ticket_len {
                r == Err::<TicketModel, TlsError>(TlsError::InvalidTicketLength) && rest == b.skip(
                    at_ticket,
                )
            } else if b.len() < at_list {
                r == Err::<TicketModel, TlsError>(TlsError::InvalidExtensionsLength) && rest
                    == b.skip(at_ticket + ticket_len)
            } else if b.len() < end {
                r == short && rest == b.skip(at_list)
            } else {
                &&& rest == b.skip(end)
                &&& match extension_list(b.subrange(at_list, end), Seq::empty(), 1) {
                    Err(e) => r == Err::<TicketModel, TlsError>(e),
                    Ok(_) => match r {
                        Err(_) => false,
                        Ok(t) => if nonce_len <= 64 && ticket_len <= 384 {
                            &&& t.lifetime == ((b[0] * 256 + b[1]) * 256 + b[2]) * 256 + b[3]
                            &&& t.age_add == ((b[4] * 256 + b[5]) * 256 + b[6]) * 256 + b[7]
                            &&& t.nonce == b.subrange(9, 9 + nonce_len)
                            &&& t.ticket == b.subrange(at_ticket, at_ticket + ticket_len)
                        } else {
                            &&& t.lifetime == 0 && t.age_add == 0
                            &&& t.nonce.len() == 0 && t.ticket.len() == 0
                        },
                    },
                }
            }
        }),
{
    assert(b.skip(0) =~= b);
    if b.len() >= 9 {
        let nonce_len = b[8] as int;
        let at_ticket = 11 + nonce_len;
        let at_nonce = b.skip(9);
        if b.len() >= at_ticket {
            let after_nonce = at_nonce.skip(nonce_len);
            assert(at_nonce.take(nonce_len) =~= b.subrange(9, 9 + nonce_len));
            assert(after_nonce =~= b.skip(9 + nonce_len));
            assert(after_nonce[0] == b[at_ticket - 2] && after_nonce[1] == b[at_ticket - 1]);
            let ticket_len = b[at_ticket - 2] * 256 + b[at_ticket - 1];
            assert(after_nonce.skip(2) =~= b.skip(at_ticket));
            if b.len() >= at_ticket + ticket_len {
                let block = b.skip(at_ticket).skip(ticket_len);
                assert(b.skip(at_ticket).take(ticket_len) =~= b.subrange(
                    at_ticket,
                    at_ticket + ticket_len,
                ));
                assert(block =~= b.skip(at_ticket + ticket_len));
                let at_list = at_ticket + ticket_len + 2;
                law_extension_block(block, 1);
                if b.len() >= at_list {
                    assert(block[0] == b[at_list - 2] && block[1] == b[at_list - 1]);
                    let end = at_list + b[at_list - 2] * 256 + b[at_list - 1];
                    assert(block.subrange(2, block.len() as int) =~= b.skip(at_list));
                    if b.len() >= end {
                        let len = end - at_list;
                        assert(block.subrange(2, 2 + len) =~= b.subrange(at_list, end));
                        assert(block.subrange(2 + len, block.len() as int) =~= b.skip(end));
                    }
                }
            }
        } else if b.len() >= 9 + nonce_len {
            assert(at_nonce.skip(nonce_len) =~= b.skip(9 + nonce_len));
        }
    }
}

} // verus!
