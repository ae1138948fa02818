//! Secrets of the two key exchange groups, P-256 and X25519.
//!
//! A secret is its 32 bytes; the `p256` and `x25519-dalek` crates do the
//! arithmetic.

use rand_core::OsRng;
use vstd::prelude::*;

verus! {

/// The random number generator of the operating system.
#[verifier::external_type_specification]
#[verifier::external_body]
pub struct ExOsRng(rand_core::OsRng);

/// The error of the `p256` crate.
#[verifier::external_type_specification]
#[verifier::external_body]
pub struct ExEllipticCurveError(p256::elliptic_curve::Error);

/// The number that `bytes` spell, most significant byte first.
pub open spec fn be_value(bytes: Seq<u8>) -> nat
    decreases bytes.len(),
{
    if bytes.len() == 0 {
        0
    } else {
        be_value(bytes.drop_last()) * 256 + bytes.last() as nat
    }
}

/// The order of the P-256 group.
pub open spec fn p256_order() -> nat {
    0xffffffff00000000ffffffffffffffffbce6faada7179e84f3b9cac2fc632551nat
}

/// Whether 32 bytes are a P-256 secret: a number from 1 up to the order.
pub open spec fn is_p256_secret(bytes: Seq<u8>) -> bool {
    bytes.len() == 32 && 0 < be_value(bytes) < p256_order()
}

/// The prime of the P-256 field.
pub open spec fn p256_prime() -> int {
    0xffffffff00000001000000000000000000000000ffffffffffffffffffffffffint
}

/// Whether two numbers are the coordinates of a point of P-256: `y^2` is
/// `x^3 - 3x + b` in the field.
pub open spec fn on_p256(x: int, y: int) -> bool {
    let b = 0x5ac635d8aa3a93e7b3ebbd55769886bc651d06b0cc53b0f63bce3c3e27d2604bint;
    &&& 0 <= x < p256_prime()
    &&& 0 <= y < p256_prime()
    &&& (y * y) % p256_prime() == (x * x * x - 3 * x + b) % p256_prime()
}

/// The y-coordinate in an uncompressed encoding.
pub open spec fn y_of(point: Seq<u8>) -> int {
    be_value(point.subrange(33, 65)) as int
}

/// Whether bytes are a point in uncompressed SEC1 encoding: the tag 4 and both
/// coordinates.
pub open spec fn is_uncompressed(point: Seq<u8>) -> bool {
    &&& point.len() == 65
    &&& point[0] == 4
    &&& on_p256(be_value(point.subrange(1, 33)) as int, y_of(point))
}

/// Whether bytes are a SEC1 encoding of an uncompressed point: that itself, or
/// its x-coordinate behind a tag that tells which of the two y-coordinates is
/// meant. The tags 2 and 3 mean the even and the odd one, 5 the smaller one.
pub open spec fn encodes(bytes: Seq<u8>, point: Seq<u8>) -> bool {
    &&& is_uncompressed(point)
    &&& {
        ||| bytes == point
        ||| {
            &&& bytes.len() == 33
            &&& bytes.subrange(1, 33) == point.subrange(1, 33)
            &&& {
                ||| bytes[0] == 2 && y_of(point) % 2 == 0
                ||| bytes[0] == 3 && y_of(point) % 2 == 1
                ||| bytes[0] == 5 && 2 * y_of(point) < p256_prime()
            }
        }
    }
}

/// Whether bytes are a SEC1 encoding of a point that is not the identity.
pub open spec fn is_p256_point(bytes: Seq<u8>) -> bool {
    exists|point: Seq<u8>| encodes(bytes, point)
}

/// The point of an encoding, uncompressed. An encoding has no more than one.
pub open spec fn p256_point(bytes: Seq<u8>) -> Seq<u8> {
    choose|point: Seq<u8>| encodes(bytes, point)
}

/// An uncompressed point is its own encoding, and encodes no other.
pub proof fn lemma_uncompressed_point(point: Seq<u8>)
    requires
        is_uncompressed(point),
    ensures
        is_p256_point(point),
        p256_point(point) == point,
{
    assert(encodes(point, point));
}

/// The public point of a P-256 secret, in uncompressed SEC1 encoding.
pub uninterp spec fn p256_public(secret: Seq<u8>) -> Seq<u8>;

/// The x-coordinate that a P-256 secret shares with an uncompressed public
/// point.
pub uninterp spec fn p256_shared(secret: Seq<u8>, point: Seq<u8>) -> Seq<u8>;

/// The X25519 public value of a secret.
pub uninterp spec fn x25519_public(secret: Seq<u8>) -> Seq<u8>;

/// What an X25519 secret shares with a public value.
pub uninterp spec fn x25519_shared(secret: Seq<u8>, public: Seq<u8>) -> Seq<u8>;

/// `p256::SecretKey::random`, then its bytes: a secret, which one is up to
/// chance. It panics where the operating system has no randomness to give.
#[verifier::external_body]
fn p256_random(rng: &mut OsRng) -> (r: [u8; 32])
    ensures
        is_p256_secret(r@),
{
    p256::SecretKey::random(rng).to_bytes().into()
}

/// `p256::SecretKey::from_slice` on 32 bytes: it takes the secrets and nothing
/// else.
#[verifier::external_body]
fn p256_accept(bytes: &[u8; 32]) -> (r: Result<(), p256::elliptic_curve::Error>)
    ensures
        r is Ok <==> is_p256_secret(bytes@),
{
    match p256::SecretKey::from_slice(bytes) {
        Ok(_) => Ok(()),
        Err(error) => Err(error),
    }
}

/// `p256::SecretKey::public_key`, encoded with `p256::EncodedPoint::from`: the
/// point is [`p256_public`], uncompressed.
#[verifier::external_body]
fn p256_public_key(secret: &[u8; 32]) -> (r: Vec<u8>)
    requires
        is_p256_secret(secret@),
    ensures
        r@ == p256_public(secret@),
        is_uncompressed(r@),
{
    let key = p256::SecretKey::from_slice(secret).unwrap().public_key();
    p256::EncodedPoint::from(&key).as_bytes().to_vec()
}

/// `p256::PublicKey::from_sec1_bytes`, encoded again with
/// `p256::EncodedPoint::from`: it decodes the encodings of points and nothing
/// else, and the point is [`p256_point`].
#[verifier::external_body]
fn p256_decode(public: &[u8]) -> (r: Result<Vec<u8>, p256::elliptic_curve::Error>)
    ensures
        r is Ok <==> is_p256_point(public@),
        r matches Ok(point) ==> point@ == p256_point(public@),
{
    let key = p256::PublicKey::from_sec1_bytes(public)?;
    Ok(p256::EncodedPoint::from(&key).as_bytes().to_vec())
}

/// `p256::ecdh::diffie_hellman` with an uncompressed point: the result is
/// [`p256_shared`]. With the public point of another secret, the other side
/// arrives at the same result.
#[verifier::external_body]
fn p256_diffie_hellman(secret: &[u8; 32], point: &[u8]) -> (r: [u8; 32])
    requires
        is_p256_secret(secret@),
        is_uncompressed(point@),
    ensures
        r@ == p256_shared(secret@, point@),
        forall|other: Seq<u8>|
            is_p256_secret(other) && point@ == #[trigger] p256_public(other) ==> r@ == p256_shared(
                other,
                p256_public(secret@),
            ),
{
    let scalar = p256::SecretKey::from_slice(secret).unwrap().to_nonzero_scalar();
    let key = p256::PublicKey::from_sec1_bytes(point).unwrap();
    (*p256::ecdh::diffie_hellman(scalar, key.as_affine()).raw_secret_bytes()).into()
}

/// `x25519_dalek::StaticSecret::random_from_rng`, then its bytes: any 32 bytes
/// may come. It panics where the operating system has no randomness to give.
#[verifier::external_body]
fn x25519_random(rng: &mut OsRng) -> (r: [u8; 32]) {
    x25519_dalek::StaticSecret::random_from_rng(rng).to_bytes()
}

/// `x25519_dalek::PublicKey::from` a secret: [`x25519_public`].
#[verifier::external_body]
fn x25519_public_key(secret: &[u8; 32]) -> (r: [u8; 32])
    ensures
        r@ == x25519_public(secret@),
{
    x25519_dalek::PublicKey::from(&x25519_dalek::StaticSecret::from(*secret)).to_bytes()
}

/// `x25519_dalek::StaticSecret::diffie_hellman`: [`x25519_shared`]. With the
/// public value of another secret, the other side arrives at the same result.
#[verifier::external_body]
fn x25519_diffie_hellman(secret: &[u8; 32], public: &[u8; 32]) -> (r: [u8; 32])
    ensures
        r@ == x25519_shared(secret@, public@),
        forall|other: Seq<u8>|
            other.len() == 32 && public@ == #[trigger] x25519_public(other) ==> r@
                == x25519_shared(other, x25519_public(secret@)),
{
    x25519_dalek::StaticSecret::from(*secret)
        .diffie_hellman(&x25519_dalek::PublicKey::from(*public))
        .to_bytes()
}

/// A secret of the P-256 group.
pub struct P256Secret {
    bytes: [u8; 32],
}

impl View for P256Secret {
    type V = Seq<u8>;

    closed spec fn view(&self) -> Seq<u8> {
        self.bytes@
    }
}

impl P256Secret {
    #[verifier::type_invariant]
    spec fn in_range(self) -> bool {
        is_p256_secret(self.bytes@)
    }

    /// A secret by chance.
    pub(crate) fn random(rng: &mut OsRng) -> (r: Self)
        ensures
            is_p256_secret(r@),
    {
        P256Secret { bytes: p256_random(rng) }
    }

    /// The secret of given bytes, where they are in range.
    pub fn from_bytes(bytes: [u8; 32]) -> (r: Option<Self>)
        ensures
            r is Some <==> is_p256_secret(bytes@),
            r matches Some(secret) ==> secret@ == bytes@,
    {
        match p256_accept(&bytes) {
            Ok(_) => Some(P256Secret { bytes }),
            Err(_) => None,
        }
    }

    /// The public point, in uncompressed encoding.
    pub fn public_key(&self) -> (r: Vec<u8>)
        ensures
            is_p256_secret(self@),
            r@ == p256_public(self@),
            is_uncompressed(r@),
    {
        proof {
            use_type_invariant(self);
        }
        p256_public_key(&self.bytes)
    }

    /// The x-coordinate shared with a public point, where `public` encodes one.
    pub fn diffie_hellman(self, public: &[u8]) -> (r: Option<[u8; 32]>)
        ensures
            r is Some <==> is_p256_point(public@),
            r matches Some(shared) ==> shared@ == p256_shared(self@, p256_point(public@)),
            forall|other: Seq<u8>|
                is_p256_secret(other) && is_uncompressed(public@) && public@
                    == #[trigger] p256_public(other) ==> r is Some && r->Some_0@ == p256_shared(
                    other,
                    p256_public(self@),
                ),
    {
        proof {
            use_type_invariant(&self);
            if is_uncompressed(public@) {
                lemma_uncompressed_point(public@);
            }
        }
        match p256_decode(public) {
            Ok(point) => {
                assert(encodes(public@, point@));
                Some(p256_diffie_hellman(&self.bytes, point.as_slice()))
            },
            Err(_) => None,
        }
    }
}

/// A secret of the X25519 group.
pub struct X25519Secret {
    bytes: [u8; 32],
}

impl View for X25519Secret {
    type V = Seq<u8>;

    closed spec fn view(&self) -> Seq<u8> {
        self.bytes@
    }
}

impl X25519Secret {
    /// A secret by chance; any 32 bytes may come.
    pub(crate) fn random(rng: &mut OsRng) -> (r: Self)
        ensures
            r@.len() == 32,
    {
        X25519Secret { bytes: x25519_random(rng) }
    }

    /// The secret of given bytes; any will do.
    pub fn from_bytes(bytes: [u8; 32]) -> (r: Self)
        ensures
            r@ == bytes@,
    {
        X25519Secret { bytes }
    }

    /// The public value.
    pub fn public_key(&self) -> (r: [u8; 32])
        ensures
            self@.len() == 32,
            r@ == x25519_public(self@),
    {
        x25519_public_key(&self.bytes)
    }

    /// What is shared with a public value.
    pub fn diffie_hellman(self, public: &[u8; 32]) -> (r: [u8; 32])
        ensures
            r@ == x25519_shared(self@, public@),
            forall|other: Seq<u8>|
                other.len() == 32 && public@ == #[trigger] x25519_public(other) ==> r@
                    == x25519_shared(other, x25519_public(self@)),
    {
        x25519_diffie_hellman(&self.bytes, public)
    }
}

} // verus!
