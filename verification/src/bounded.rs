//! Byte vectors of fixed capacity, from the `heapless` crate.
//!
//! What such a vector holds has a name for each capacity in use, and each
//! method that the library calls says what it does to the contents.

use vstd::prelude::*;

verus! {

/// `heapless::Vec`.
#[verifier::external_type_specification]
#[verifier::external_body]
#[verifier::reject_recursive_types(T)]
pub struct ExHeaplessVec<T, const N: usize>(heapless::Vec<T, N>);

/// The bytes of a ticket nonce, in order.
pub uninterp spec fn nonce_bytes(v: heapless::Vec<u8, 64>) -> Seq<u8>;

/// `heapless::Vec::new` for 64 bytes: the vector is empty.
#[verifier::external_body]
pub(crate) fn nonce_new() -> (v: heapless::Vec<u8, 64>)
    ensures
        nonce_bytes(v) == Seq::<u8>::empty(),
{
    heapless::Vec::new()
}

/// `heapless::Vec::extend_from_slice` for 64 bytes: appends all of `other`
/// where it fits, and else fails and changes nothing.
#[verifier::external_body]
pub(crate) fn nonce_extend_from_slice(v: &mut heapless::Vec<u8, 64>, other: &[u8]) -> (r: Result<
    (),
    (),
>)
    ensures
        r is Ok <==> nonce_bytes(*old(v)).len() + other@.len() <= 64,
        r is Ok ==> nonce_bytes(*final(v)) == nonce_bytes(*old(v)) + other@,
        r is Err ==> nonce_bytes(*final(v)) == nonce_bytes(*old(v)),
{
    v.extend_from_slice(other)
}

/// `heapless::Vec::as_slice` for 64 bytes: the contents, at most 64 bytes.
#[verifier::external_body]
pub(crate) fn nonce_as_slice(v: &heapless::Vec<u8, 64>) -> (r: &[u8])
    ensures
        r@ == nonce_bytes(*v),
        r@.len() <= 64,
{
    v.as_slice()
}

/// The bytes of a ticket, in order.
pub uninterp spec fn ticket_bytes(v: heapless::Vec<u8, 384>) -> Seq<u8>;

/// `heapless::Vec::new` for 384 bytes: the vector is empty.
#[verifier::external_body]
pub(crate) fn ticket_new() -> (v: heapless::Vec<u8, 384>)
    ensures
        ticket_bytes(v) == Seq::<u8>::empty(),
{
    heapless::Vec::new()
}

/// `heapless::Vec::extend_from_slice` for 384 bytes: appends all of `other`
/// where it fits, and else fails and changes nothing.
#[verifier::external_body]
pub(crate) fn ticket_extend_from_slice(v: &mut heapless::Vec<u8, 384>, other: &[u8]) -> (r: Result<
    (),
    (),
>)
    ensures
        r is Ok <==> ticket_bytes(*old(v)).len() + other@.len() <= 384,
        r is Ok ==> ticket_bytes(*final(v)) == ticket_bytes(*old(v)) + other@,
        r is Err ==> ticket_bytes(*final(v)) == ticket_bytes(*old(v)),
{
    v.extend_from_slice(other)
}

/// `heapless::Vec::as_slice` for 384 bytes: the contents, at most 384 bytes.
#[verifier::external_body]
pub(crate) fn ticket_as_slice(v: &heapless::Vec<u8, 384>) -> (r: &[u8])
    ensures
        r@ == ticket_bytes(*v),
        r@.len() <= 384,
{
    v.as_slice()
}

/// The bytes of a pre-shared key, in order.
pub uninterp spec fn psk_bytes(v: heapless::Vec<u8, 48>) -> Seq<u8>;

/// `heapless::Vec::new` for 48 bytes: the vector is empty.
#[verifier::external_body]
pub(crate) fn psk_new() -> (v: heapless::Vec<u8, 48>)
    ensures
        psk_bytes(v) == Seq::<u8>::empty(),
{
    heapless::Vec::new()
}

/// `heapless::Vec::extend_from_slice` for 48 bytes: appends all of `other`
/// where it fits, and else fails and changes nothing.
#[verifier::external_body]
pub(crate) fn psk_extend_from_slice(v: &mut heapless::Vec<u8, 48>, other: &[u8]) -> (r: Result<
    (),
    (),
>)
    ensures
        r is Ok <==> psk_bytes(*old(v)).len() + other@.len() <= 48,
        r is Ok ==> psk_bytes(*final(v)) == psk_bytes(*old(v)) + other@,
        r is Err ==> psk_bytes(*final(v)) == psk_bytes(*old(v)),
{
    v.extend_from_slice(other)
}

/// `heapless::Vec::as_slice` for 48 bytes: the contents, at most 48 bytes.
#[verifier::external_body]
pub(crate) fn psk_as_slice(v: &heapless::Vec<u8, 48>) -> (r: &[u8])
    ensures
        r@ == psk_bytes(*v),
        r@.len() <= 48,
{
    v.as_slice()
}

/// The bytes of an encoded label, in order.
pub uninterp spec fn info_bytes(v: heapless::Vec<u8, 320>) -> Seq<u8>;

/// `heapless::Vec::new` for 320 bytes: the vector is empty.
#[verifier::external_body]
pub(crate) fn info_new() -> (v: heapless::Vec<u8, 320>)
    ensures
        info_bytes(v) == Seq::<u8>::empty(),
{
    heapless::Vec::new()
}

/// `heapless::Vec::extend_from_slice` for 320 bytes: appends all of `other`
/// where it fits, and else fails and changes nothing.
#[verifier::external_body]
pub(crate) fn info_extend_from_slice(v: &mut heapless::Vec<u8, 320>, other: &[u8]) -> (r: Result<
    (),
    (),
>)
    ensures
        r is Ok <==> info_bytes(*old(v)).len() + other@.len() <= 320,
        r is Ok ==> info_bytes(*final(v)) == info_bytes(*old(v)) + other@,
        r is Err ==> info_bytes(*final(v)) == info_bytes(*old(v)),
{
    v.extend_from_slice(other)
}

/// `heapless::Vec::push` for 320 bytes: appends `item` where there is room,
/// and else hands it back and changes nothing.
#[verifier::external_body]
pub(crate) fn info_push(v: &mut heapless::Vec<u8, 320>, item: u8) -> (r: Result<(), u8>)
    ensures
        r is Ok <==> info_bytes(*old(v)).len() < 320,
        r is Ok ==> info_bytes(*final(v)) == info_bytes(*old(v)).push(item),
        r matches Err(back) ==> back == item && info_bytes(*final(v)) == info_bytes(*old(v)),
{
    v.push(item)
}

/// `heapless::Vec::as_slice` for 320 bytes: the contents, at most 320 bytes.
#[verifier::external_body]
pub(crate) fn info_as_slice(v: &heapless::Vec<u8, 320>) -> (r: &[u8])
    ensures
        r@ == info_bytes(*v),
        r@.len() <= 320,
{
    v.as_slice()
}

} // verus!
