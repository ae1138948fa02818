//! The extensions of a `NewSessionTicket`.

use crate::error::{ParseError, TlsError};
use crate::parse_buffer::{be16_value, ParseBuffer};
use vstd::prelude::*;

verus! {

/// The type of the `early_data` extension.
pub const EARLY_DATA: u16 = 42;

/// An extension that a `NewSessionTicket` may carry.
pub enum NewSessionTicketExtension {
    /// `early_data`, with its data.
    EarlyData(Vec<u8>),
}

impl View for NewSessionTicketExtension {
    type V = Seq<u8>;

    open spec fn view(&self) -> Seq<u8> {
        match self {
            NewSessionTicketExtension::EarlyData(data) => data@,
        }
    }
}

/// The `early_data` extensions of a list, after those that were `found` before
/// it; no more than `max` in all. Extensions of other types are passed over.
pub open spec fn extension_list(b: Seq<u8>, found: Seq<Seq<u8>>, max: nat) -> Result<
    Seq<Seq<u8>>,
    TlsError,
>
    decreases b.len(),
{
    if b.len() == 0 {
        Ok(found)
    } else if b.len() < 4 || b.len() < 4 + be16_value(b.skip(2)) {
        Err(TlsError::ParseError(ParseError::InsufficientBytes))
    } else {
        let end = 4 + be16_value(b.skip(2)) as int;
        if be16_value(b) != EARLY_DATA {
            extension_list(b.skip(end), found, max)
        } else if found.len() >= max {
            Err(TlsError::DecodeError)
        } else {
            extension_list(b.skip(end), found.push(b.subrange(4, end)), max)
        }
    }
}

/// An extension block, a list behind its length, at the front of a message: what
/// it holds, and what is left of the message.
pub open spec fn extension_block(b: Seq<u8>, max: nat) -> (
    Result<Seq<Seq<u8>>, TlsError>,
    Seq<u8>,
) {
    if b.len() < 2 {
        (Err(TlsError::InvalidExtensionsLength), b)
    } else {
        let len = be16_value(b) as int;
        let rest = b.skip(2);
        if rest.len() < len {
            (Err(TlsError::ParseError(ParseError::InsufficientBytes)), rest)
        } else {
            (extension_list(rest.take(len), Seq::empty(), max), rest.skip(len))
        }
    }
}

/// What a list of extensions holds.
pub open spec fn views(extensions: Seq<NewSessionTicketExtension>) -> Seq<Seq<u8>> {
    extensions.map_values(|e: NewSessionTicketExtension| e@)
}

impl NewSessionTicketExtension {
    /// Takes one extension off a list; `None` where its type has no place here.
    pub fn parse(buf: &mut ParseBuffer<'_>) -> (r: Result<Option<Self>, TlsError>)
        ensures
            ({
                let b = old(buf)@;
                let end = 4 + be16_value(b.skip(2)) as int;
                match r {
                    Ok(extension) => {
                        &&& b.len() >= 4 && b.len() >= end
                        &&& final(buf)@ == b.skip(end)
                        &&& extension is Some <==> be16_value(b) == EARLY_DATA
                        &&& extension matches Some(e) ==> e@ == b.subrange(4, end)
                    },
                    Err(e) => {
                        &&& b.len() < 4 || b.len() < end
                        &&& final(buf)@ == b.skip(
                            if b.len() < 2 {
                                0
                            } else if b.len() < 4 {
                                2
                            } else {
                                4
                            },
                        )
                        &&& e == TlsError::ParseError(ParseError::InsufficientBytes)
                    },
                }
            }),
    {
        let ghost b = buf@;
        assert(b.skip(0) =~= b);
        let extension_type: u16 = match buf.read_u16() {
            Ok(n) => n,
            Err(e) => return Err(TlsError::from(e)),
        };
        let len: u16 = match buf.read_u16() {
            Ok(n) => n,
            Err(e) => return Err(TlsError::from(e)),
        };
        assert(b.skip(2).skip(2) =~= b.skip(4));
        let data = match buf.slice(len as usize) {
            Ok(data) => data,
            Err(e) => return Err(TlsError::from(e)),
        };
        assert(b.skip(4).skip(len as int) =~= b.skip(4 + len));
        assert(b.skip(4).take(len as int) =~= b.subrange(4, 4 + len));
        if extension_type == EARLY_DATA {
            Ok(
                Some(
                    NewSessionTicketExtension::EarlyData(
                        vstd::slice::slice_to_vec(data.as_slice()),
                    ),
                ),
            )
        } else {
            Ok(None)
        }
    }

    /// Takes an extension block off a message. It may hold `N` extensions that
    /// have a place here.
    pub fn parse_vector<const N: usize>(buf: &mut ParseBuffer<'_>) -> (r: Result<
        Vec<Self>,
        TlsError,
    >)
        ensures
            ({
                let (expected, rest) = extension_block(old(buf)@, N as nat);
                &&& final(buf)@ == rest
                &&& match (r, expected) {
                    (Ok(extensions), Ok(found)) => views(extensions@) == found,
                    (Err(e), Err(error)) => e == error,
                    _ => false,
                }
            }),
    {
        let len: u16 = match buf.read_u16() {
            Ok(n) => n,
            Err(_) => return Err(TlsError::InvalidExtensionsLength),
        };
        let mut list = match buf.slice(len as usize) {
            Ok(list) => list,
            Err(e) => return Err(TlsError::from(e)),
        };
        let ghost all = list@;
        let mut extensions: Vec<NewSessionTicketExtension> = Vec::new();
        assert(views(extensions@) =~= Seq::empty());
        while !list.is_empty()
            invariant
                extension_list(list@, views(extensions@), N as nat) == extension_list(
                    all,
                    Seq::empty(),
                    N as nat,
                ),
                extension_block(old(buf)@, N as nat) == (
                    extension_list(all, Seq::empty(), N as nat),
                    buf@,
                ),
            decreases list@.len(),
        {
            let ghost before = extensions@;
            match NewSessionTicketExtension::parse(&mut list) {
                Ok(Some(extension)) => {
                    if extensions.len() >= N {
                        return Err(TlsError::DecodeError);
                    }
                    extensions.push(extension);
                    assert(views(extensions@) =~= views(before).push(extension@));
                },
                Ok(None) => {},
                Err(e) => return Err(e),
            }
        }
        Ok(extensions)
    }
}

} // verus!
