//! Laws of the key exchange: which bytes are secrets and points, what is handed
//! out, and what is shared.

use crate::curve::{
    be_value, encodes, is_p256_point, is_p256_secret, is_uncompressed, on_p256, p256_point,
    p256_prime, p256_public, p256_shared, x25519_public, x25519_shared, y_of,
};
use crate::key_exchange::{chosen_group, EphemeralSecret, NamedGroup};
use vstd::arithmetic::div_mod::lemma_mod_equivalence;
use vstd::prelude::*;

verus! {

/// The number that bytes spell grows by one byte at a time, most significant
/// first.
pub proof fn law_number_of_bytes(bytes: Seq<u8>, byte: u8)
    ensures
        be_value(Seq::empty()) == 0,
        be_value(bytes.push(byte)) == 256 * be_value(bytes) + byte,
{
    assert(bytes.push(byte).drop_last() =~= bytes);
}

/// A P-256 secret is 32 bytes that spell a number from one up to the order of the
/// group, and not the order itself.
pub proof fn law_p256_secrets(bytes: Seq<u8>)
    ensures
        is_p256_secret(bytes) <==> bytes.len() == 32 && be_value(bytes) >= 1 && be_value(bytes)
            <= 0xffffffff00000000ffffffffffffffffbce6faada7179e84f3b9cac2fc632550nat,
{
}

/// Whether two numbers satisfy the equation of P-256: both are below the prime,
/// which divides the difference of `y^2` and `x^3 - 3x + b`.
pub open spec fn solves_p256(x: int, y: int) -> bool {
    let prime = 0xffffffff00000001000000000000000000000000ffffffffffffffffffffffffint;
    let b = 0x5ac635d8aa3a93e7b3ebbd55769886bc651d06b0cc53b0f63bce3c3e27d2604bint;
    &&& 0 <= x < prime && 0 <= y < prime
    &&& (y * y - (x * x * x - 3 * x + b)) % prime == 0
}

/// Whether a tag and a y-coordinate go together in an encoding that leaves the
/// y-coordinate out.
pub open spec fn tag_means(tag: u8, y: int) -> bool {
    ||| tag == 2 && y % 2 == 0
    ||| tag == 3 && y % 2 != 0
    ||| tag == 5 && y + y
        < 0xffffffff00000001000000000000000000000000ffffffffffffffffffffffffint
}

/// The two ways to write the equation say the same.
proof fn lemma_equation(x: int, y: int)
    ensures
        on_p256(x, y) <==> solves_p256(x, y),
{
    let b = 0x5ac635d8aa3a93e7b3ebbd55769886bc651d06b0cc53b0f63bce3c3e27d2604bint;
    lemma_mod_equivalence(y * y, x * x * x - 3 * x + b, p256_prime());
}

/// Bytes are an encoded point exactly when they are both coordinates of a
/// solution behind the tag 4, or the x-coordinate of one behind a tag that means
/// its y-coordinate.
pub proof fn law_p256_points(bytes: Seq<u8>)
    ensures
        is_p256_point(bytes) <==> {
            let x = be_value(bytes.subrange(1, 33)) as int;
            ||| bytes.len() == 65 && bytes[0] == 4 && solves_p256(
                x,
                be_value(bytes.subrange(33, 65)) as int,
            )
            ||| bytes.len() == 33 && exists|y: Seq<u8>|
                y.len() == 32 && solves_p256(x, #[trigger] be_value(y) as int) && tag_means(
                    bytes[0],
                    be_value(y) as int,
                )
        },
{
    let x_bytes = bytes.subrange(1, 33);
    let x = be_value(x_bytes) as int;
    if is_p256_point(bytes) {
        let point = choose|point: Seq<u8>| encodes(bytes, point);
        lemma_equation(be_value(point.subrange(1, 33)) as int, y_of(point));
        if bytes.len() == 33 {
            let y = point.subrange(33, 65);
            assert(solves_p256(x, be_value(y) as int));
        }
    }
    if bytes.len() == 65 && bytes[0] == 4 && solves_p256(
        x,
        be_value(bytes.subrange(33, 65)) as int,
    ) {
        lemma_equation(x, y_of(bytes));
        assert(encodes(bytes, bytes));
    }
    if bytes.len() == 33 && exists|y: Seq<u8>|
        y.len() == 32 && solves_p256(x, #[trigger] be_value(y) as int) && tag_means(
            bytes[0],
            be_value(y) as int,
        ) {
        let y = choose|y: Seq<u8>|
            y.len() == 32 && solves_p256(x, #[trigger] be_value(y) as int) && tag_means(
                bytes[0],
                be_value(y) as int,
            );
        let point = seq![4u8] + x_bytes + y;
        assert(point.subrange(1, 33) =~= x_bytes);
        assert(point.subrange(33, 65) =~= y);
        lemma_equation(x, y_of(point));
        assert(encodes(bytes, point));
    }
}

/// The point of an encoding is a solution with the x-coordinate of the encoding,
/// and with the y-coordinate that stands there or that the tag means.
pub proof fn law_p256_decoding(bytes: Seq<u8>)
    requires
        is_p256_point(bytes),
    ensures
        ({
            let point = p256_point(bytes);
            let y = be_value(point.subrange(33, 65)) as int;
            &&& point.len() == 65
            &&& point[0] == 4
            &&& point.subrange(1, 33) == bytes.subrange(1, 33)
            &&& solves_p256(be_value(bytes.subrange(1, 33)) as int, y)
            &&& bytes.len() == 65 ==> point == bytes
            &&& bytes.len() == 33 ==> tag_means(bytes[0], y)
            &&& bytes.len() == 65 || bytes.len() == 33
        }),
{
    let point = p256_point(bytes);
    assert(encodes(bytes, point));
    lemma_equation(be_value(point.subrange(1, 33)) as int, y_of(point));
}

/// Only X25519 is taken at its word; every other group gives way to P-256.
pub proof fn law_groups(preferred: NamedGroup, secret: EphemeralSecret)
    ensures
        chosen_group(NamedGroup::X25519) == NamedGroup::X25519,
        preferred != NamedGroup::X25519 ==> chosen_group(preferred) == NamedGroup::Secp256r1,
        secret is X25519 ==> secret.named_group() == NamedGroup::X25519,
        secret is P256 ==> secret.named_group() == NamedGroup::Secp256r1,
{
}

/// What a secret hands out, and what it shares with whom, is what its group gives
/// for its bytes, byte for byte.
pub proof fn law_exchange(secret: EphemeralSecret, public: Seq<u8>)
    ensures
        match secret {
            EphemeralSecret::P256(p) => {
                &&& secret.secret() == p@
                &&& secret.public_key() == p256_public(p@)
                &&& is_p256_point(public) ==> secret.shared_with(public) == Some(
                    p256_shared(p@, p256_point(public)),
                )
                &&& !is_p256_point(public) ==> secret.shared_with(public) is None
            },
            EphemeralSecret::X25519(x) => {
                &&& secret.secret() == x@
                &&& secret.public_key() == x25519_public(x@)
                &&& public.len() == 32 ==> secret.shared_with(public) == Some(
                    x25519_shared(x@, public),
                )
                &&& public.len() != 32 ==> secret.shared_with(public) is None
            },
        },
{
}

/// A public key that a secret hands out has the length of its group, and for
/// P-256 is an uncompressed point of its own.
pub proof fn law_handed_out(secret: EphemeralSecret, public: Seq<u8>)
    requires
        secret.hands_out(public),
    ensures
        public == secret.public_key(),
        secret is X25519 ==> public.len() == 32,
        secret is P256 ==> public.len() == 65 && public[0] == 4 && solves_p256(
            be_value(public.subrange(1, 33)) as int,
            be_value(public.subrange(33, 65)) as int,
        ),
{
    if secret is P256 {
        assert(is_uncompressed(public));
        lemma_equation(be_value(public.subrange(1, 33)) as int, y_of(public));
    }
}

} // verus!
