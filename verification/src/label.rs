//! The labels of the key schedule and their encoding.
//!
//! HKDF-Expand-Label (RFC 8446, section 7.1) feeds HKDF-Expand with an encoded
//! `HkdfLabel`:
//!
//! ```text
//! struct {
//!     uint16 length;
//!     opaque label<7..255> = "tls13 " + Label;
//!     opaque context<0..255>;
//! } HkdfLabel;
//! ```

use crate::error::TlsError;
use vstd::prelude::*;

verus! {

/// `tls13 `, what every label starts with on the wire.
pub const TLS13_PREFIX: [u8; 6] = [0x74, 0x6c, 0x73, 0x31, 0x33, 0x20];

/// `derived`
pub const DERIVED: [u8; 7] = [0x64, 0x65, 0x72, 0x69, 0x76, 0x65, 0x64];

/// `key`
pub const KEY: [u8; 3] = [0x6b, 0x65, 0x79];

/// `iv`
pub const IV: [u8; 2] = [0x69, 0x76];

/// `finished`
pub const FINISHED: [u8; 8] = [0x66, 0x69, 0x6e, 0x69, 0x73, 0x68, 0x65, 0x64];

/// `resumption`
pub const RESUMPTION: [u8; 10] = [0x72, 0x65, 0x73, 0x75, 0x6d, 0x70, 0x74, 0x69, 0x6f, 0x6e];

/// `res master`
pub const RES_MASTER: [u8; 10] = [0x72, 0x65, 0x73, 0x20, 0x6d, 0x61, 0x73, 0x74, 0x65, 0x72];

/// `ext binder`
pub const EXT_BINDER: [u8; 10] = [0x65, 0x78, 0x74, 0x20, 0x62, 0x69, 0x6e, 0x64, 0x65, 0x72];

/// `res binder`
pub const RES_BINDER: [u8; 10] = [0x72, 0x65, 0x73, 0x20, 0x62, 0x69, 0x6e, 0x64, 0x65, 0x72];

/// `c hs traffic`
pub const C_HS_TRAFFIC: [u8; 12] = [
    0x63, 0x20, 0x68, 0x73, 0x20, 0x74, 0x72, 0x61, 0x66, 0x66, 0x69, 0x63,
];

/// `s hs traffic`
pub const S_HS_TRAFFIC: [u8; 12] = [
    0x73, 0x20, 0x68, 0x73, 0x20, 0x74, 0x72, 0x61, 0x66, 0x66, 0x69, 0x63,
];

/// `c ap traffic`
pub const C_AP_TRAFFIC: [u8; 12] = [
    0x63, 0x20, 0x61, 0x70, 0x20, 0x74, 0x72, 0x61, 0x66, 0x66, 0x69, 0x63,
];

/// `s ap traffic`
pub const S_AP_TRAFFIC: [u8; 12] = [
    0x73, 0x20, 0x61, 0x70, 0x20, 0x74, 0x72, 0x61, 0x66, 0x66, 0x69, 0x63,
];

/// The two bytes of `n`, most significant first.
pub open spec fn be16(n: u16) -> Seq<u8> {
    seq![(n / 256) as u8, (n % 256) as u8]
}

/// The encoded `HkdfLabel`. Each length field is one byte and holds the length
/// modulo 256.
pub open spec fn hkdf_label(len: u16, label: Seq<u8>, context: Seq<u8>) -> Seq<u8> {
    be16(len) + seq![(6 + label.len() % 256) as u8] + TLS13_PREFIX@ + label + seq![
        (context.len() % 256) as u8,
    ] + context
}

/// The bytes of a text of characters below 256.
pub open spec fn ascii(text: Seq<char>) -> Seq<u8> {
    text.map_values(|c: char| c as u8)
}

/// The constants spell the labels of RFC 8446.
pub proof fn lemma_labels_spell()
    ensures
        TLS13_PREFIX@ == ascii("tls13 "@),
        DERIVED@ == ascii("derived"@),
        KEY@ == ascii("key"@),
        IV@ == ascii("iv"@),
        FINISHED@ == ascii("finished"@),
        RESUMPTION@ == ascii("resumption"@),
        RES_MASTER@ == ascii("res master"@),
        EXT_BINDER@ == ascii("ext binder"@),
        RES_BINDER@ == ascii("res binder"@),
        C_HS_TRAFFIC@ == ascii("c hs traffic"@),
        S_HS_TRAFFIC@ == ascii("s hs traffic"@),
        C_AP_TRAFFIC@ == ascii("c ap traffic"@),
        S_AP_TRAFFIC@ == ascii("s ap traffic"@),
{
    reveal_strlit("tls13 ");
    reveal_strlit("derived");
    reveal_strlit("key");
    reveal_strlit("iv");
    reveal_strlit("finished");
    reveal_strlit("resumption");
    reveal_strlit("res master");
    reveal_strlit("ext binder");
    reveal_strlit("res binder");
    reveal_strlit("c hs traffic");
    reveal_strlit("s hs traffic");
    reveal_strlit("c ap traffic");
    reveal_strlit("s ap traffic");
}

/// The two bytes of `n`, most significant first.
pub fn be16_bytes(n: u16) -> (r: [u8; 2])
    ensures
        r@ == be16(n),
{
    let r: [u8; 2] = [(n / 256) as u8, (n % 256) as u8];
    assert(r@ =~= be16(n));
    r
}

/// Appends `other` to a buffer that may grow to `capacity` bytes, or changes
/// nothing where it does not fit.
pub fn append(buffer: &mut Vec<u8>, capacity: usize, other: &[u8]) -> (r: Result<(), TlsError>)
    requires
        old(buffer)@.len() <= capacity,
    ensures
        r == (if old(buffer)@.len() + other@.len() <= capacity {
            Ok::<(), TlsError>(())
        } else {
            Err(TlsError::InternalError)
        }),
        final(buffer)@ == (if r is Ok {
            old(buffer)@ + other@
        } else {
            old(buffer)@
        }),
{
    if other.len() > capacity - buffer.len() {
        return Err(TlsError::InternalError);
    }
    buffer.extend_from_slice(other);
    assert(buffer@ =~= old(buffer)@ + other@);
    Ok(())
}

/// Encodes an `HkdfLabel` into a buffer of `capacity` bytes.
///
/// The length of the label is counted modulo 256; together with the six bytes
/// of the prefix it must fit in the one byte that it has.
pub fn encode_hkdf_label(capacity: usize, len: u16, label: &[u8], context: &[u8]) -> (r: Result<
    Vec<u8>,
    TlsError,
>)
    requires
        label@.len() % 256 <= 249,
    ensures
        match r {
            Ok(bytes) => bytes@ == hkdf_label(len, label@, context@) && bytes@.len() <= capacity,
            Err(e) => hkdf_label(len, label@, context@).len() > capacity && e
                == TlsError::InternalError,
        },
{
    let mut buffer: Vec<u8> = Vec::new();
    append(&mut buffer, capacity, be16_bytes(len).as_slice())?;
    let label_len: [u8; 1] = [6 + (label.len() % 256) as u8];
    append(&mut buffer, capacity, label_len.as_slice())?;
    append(&mut buffer, capacity, TLS13_PREFIX.as_slice())?;
    append(&mut buffer, capacity, label)?;
    let context_len: [u8; 1] = [(context.len() % 256) as u8];
    append(&mut buffer, capacity, context_len.as_slice())?;
    append(&mut buffer, capacity, context)?;
    assert(buffer@ =~= hkdf_label(len, label@, context@));
    Ok(buffer)
}

} // verus!
