//! The ephemeral key exchange, over P-256 or X25519.

use crate::curve::{P256Secret, X25519Secret};
use rand_core::OsRng;
use vstd::prelude::*;

verus! {

/// The groups of the `supported_groups` extension.
#[derive(Debug, Clone, Copy, PartialEq, Eq, Structural)]
pub enum NamedGroup {
    Secp256r1,
    Secp384r1,
    Secp521r1,
    X25519,
    X448,
    Ffdhe2048,
    Ffdhe3072,
    Ffdhe4096,
    Ffdhe6144,
    Ffdhe8192,
}

/// The group that a secret is made in when `preferred` is asked for: X25519
/// where that is it, and P-256 for every other.
pub open spec fn chosen_group(preferred: NamedGroup) -> NamedGroup {
    match preferred {
        NamedGroup::X25519 => NamedGroup::X25519,
        _ => NamedGroup::Secp256r1,
    }
}

/// An ephemeral secret of one of the groups.
pub enum EphemeralSecret {
    P256(P256Secret),
    X25519(X25519Secret),
}

/// Writes `bytes` to the front of `buf` and hands out what was written.
pub fn write_front<'a>(buf: &'a mut [u8; 128], bytes: &[u8]) -> (r: &'a [u8])
    requires
        bytes@.len() <= 128,
    ensures
        r@ == bytes@,
        final(buf)@ == bytes@ + old(buf)@.skip(bytes@.len() as int),
{
    let n: usize = bytes.len();
    let mut i: usize = 0;
    while i < n
        invariant
            n == bytes@.len(),
            n <= 128,
            i <= n,
            buf@ == bytes@.take(i as int) + old(buf)@.skip(i as int),
        decreases n - i,
    {
        buf[i] = bytes[i];
        i += 1;
        assert(buf@ =~= bytes@.take(i as int) + old(buf)@.skip(i as int));
    }
    vstd::slice::slice_subrange(buf.as_slice(), 0, n)
}

/// The 32 bytes of a slice that has so many.
pub fn to_array(bytes: &[u8]) -> (r: Option<[u8; 32]>)
    ensures
        r is Some <==> bytes@.len() == 32,
        r matches Some(array) ==> array@ == bytes@,
{
    if bytes.len() != 32 {
        return None;
    }
    let mut array: [u8; 32] = [0u8; 32];
    let mut i: usize = 0;
    while i < 32
        invariant
            bytes@.len() == 32,
            i <= 32,
            forall|j: int| 0 <= j < i ==> array@[j] == bytes@[j],
        decreases 32 - i,
    {
        array[i] = bytes[i];
        i += 1;
    }
    assert(array@ =~= bytes@);
    Some(array)
}

impl EphemeralSecret {
    /// The group of the secret.
    pub open spec fn named_group(self) -> NamedGroup {
        match self {
            EphemeralSecret::P256(_) => NamedGroup::Secp256r1,
            EphemeralSecret::X25519(_) => NamedGroup::X25519,
        }
    }

    /// The bytes of the secret.
    pub open spec fn secret(self) -> Seq<u8> {
        match self {
            EphemeralSecret::P256(secret) => secret@,
            EphemeralSecret::X25519(secret) => secret@,
        }
    }

    /// The encoded public key.
    pub open spec fn public_key(self) -> Seq<u8> {
        match self {
            EphemeralSecret::P256(secret) => crate::curve::p256_public(secret@),
            EphemeralSecret::X25519(secret) => crate::curve::x25519_public(secret@),
        }
    }

    /// Whether a public key is the one that this secret hands out.
    pub open spec fn hands_out(self, public: Seq<u8>) -> bool {
        &&& public == self.public_key()
        &&& match self {
            EphemeralSecret::P256(secret) => crate::curve::is_p256_secret(secret@)
                && crate::curve::is_uncompressed(public),
            EphemeralSecret::X25519(secret) => secret@.len() == 32 && public.len() == 32,
        }
    }

    /// What the secret shares with the public key of a peer, where that is one.
    pub open spec fn shared_with(self, public: Seq<u8>) -> Option<Seq<u8>> {
        match self {
            EphemeralSecret::P256(secret) => if crate::curve::is_p256_point(public) {
                Some(crate::curve::p256_shared(secret@, crate::curve::p256_point(public)))
            } else {
                None
            },
            EphemeralSecret::X25519(secret) => if public.len() == 32 {
                Some(crate::curve::x25519_shared(secret@, public))
            } else {
                None
            },
        }
    }

    /// A secret by chance, for a preferred group. It panics where the operating
    /// system has no randomness to give.
    pub fn random(group: NamedGroup, rng: &mut OsRng) -> (r: Self)
        ensures
            r.named_group() == chosen_group(group),
            r is X25519 <==> group == NamedGroup::X25519,
            r is P256 ==> crate::curve::is_p256_secret(r.secret()),
            r.secret().len() == 32,
    {
        match group {
            NamedGroup::X25519 => EphemeralSecret::X25519(X25519Secret::random(rng)),
            _ => EphemeralSecret::P256(P256Secret::random(rng)),
        }
    }

    /// The secret of 32 given bytes, for a preferred group. There is none where
    /// that makes it a P-256 secret and the bytes are out of its range.
    pub fn from_secret_bytes(group: NamedGroup, bytes: [u8; 32]) -> (r: Option<Self>)
        ensures
            r is Some <==> group == NamedGroup::X25519 || crate::curve::is_p256_secret(bytes@),
            r matches Some(secret) ==> secret.named_group() == chosen_group(group)
                && secret.secret() == bytes@,
            r matches Some(EphemeralSecret::P256(secret)) ==> group != NamedGroup::X25519
                && secret@ == bytes@,
            r matches Some(EphemeralSecret::X25519(secret)) ==> group == NamedGroup::X25519
                && secret@ == bytes@,
    {
        match group {
            NamedGroup::X25519 => Some(EphemeralSecret::X25519(X25519Secret::from_bytes(bytes))),
            _ => match P256Secret::from_bytes(bytes) {
                Some(secret) => Some(EphemeralSecret::P256(secret)),
                None => None,
            },
        }
    }

    /// The group of the secret.
    pub fn group(&self) -> (r: NamedGroup)
        ensures
            r == self.named_group(),
            self is P256 ==> r == NamedGroup::Secp256r1,
            self is X25519 ==> r == NamedGroup::X25519,
    {
        match self {
            EphemeralSecret::P256(_) => NamedGroup::Secp256r1,
            EphemeralSecret::X25519(_) => NamedGroup::X25519,
        }
    }

    /// Encodes the public key into `buf`: an uncompressed point of 65 bytes for
    /// P-256, 32 bytes for X25519. Hands out what was written.
    pub fn public_key_bytes<'a>(&self, buf: &'a mut [u8; 128]) -> (r: &'a [u8])
        ensures
            r@ == self.public_key(),
            match self {
                EphemeralSecret::P256(secret) => r@ == crate::curve::p256_public(secret@),
                EphemeralSecret::X25519(secret) => r@ == crate::curve::x25519_public(secret@),
            },
            self.hands_out(r@),
            r@.len() == (if self is P256 {
                65int
            } else {
                32int
            }),
            self is P256 ==> r@[0] == 4,
            final(buf)@ == r@ + old(buf)@.skip(r@.len() as int),
    {
        match self {
            EphemeralSecret::P256(secret) => {
                let bytes = secret.public_key();
                write_front(buf, bytes.as_slice())
            },
            EphemeralSecret::X25519(secret) => {
                let bytes = secret.public_key();
                write_front(buf, bytes.as_slice())
            },
        }
    }

    /// The secret shared with the server, from its public key: a SEC1 encoded
    /// point for P-256, 32 bytes for X25519. `None` where the key is not one.
    ///
    /// With a key that a secret of the same group handed out there is always a
    /// shared secret, and the holder of that secret arrives at the same one.
    pub fn diffie_hellman(self, server_public_key: &[u8]) -> (r: Option<SharedSecret>)
        ensures
            match r {
                Some(shared) => self.shared_with(server_public_key@) == Some(shared@),
                None => self.shared_with(server_public_key@) is None,
            },
            match (self, r) {
                (EphemeralSecret::P256(secret), Some(shared)) => {
                    &&& crate::curve::is_p256_point(server_public_key@)
                    &&& shared@ == crate::curve::p256_shared(
                        secret@,
                        crate::curve::p256_point(server_public_key@),
                    )
                },
                (EphemeralSecret::P256(_), None) => !crate::curve::is_p256_point(
                    server_public_key@,
                ),
                (EphemeralSecret::X25519(secret), Some(shared)) => {
                    &&& server_public_key@.len() == 32
                    &&& shared@ == crate::curve::x25519_shared(secret@, server_public_key@)
                },
                (EphemeralSecret::X25519(_), None) => server_public_key@.len() != 32,
            },
            forall|peer: EphemeralSecret, own: Seq<u8>|
                #![trigger peer.hands_out(server_public_key@), self.hands_out(own)]
                peer.named_group() == self.named_group() && peer.hands_out(server_public_key@)
                    && self.hands_out(own) ==> (r matches Some(shared) && peer.shared_with(own)
                    == Some(shared@)),
    {
        proof {
            assert forall|own: Seq<u8>| self is P256 && #[trigger] self.hands_out(own) implies
                crate::curve::is_p256_point(own) && crate::curve::p256_point(own) == own by {
                crate::curve::lemma_uncompressed_point(own);
            }
        }
        match self {
            EphemeralSecret::P256(secret) => match secret.diffie_hellman(server_public_key) {
                Some(shared) => Some(SharedSecret::from_p256(shared)),
                None => None,
            },
            EphemeralSecret::X25519(secret) => match to_array(server_public_key) {
                Some(public) => Some(SharedSecret::from_x25519(secret.diffie_hellman(&public))),
                None => None,
            },
        }
    }
}

/// The raw bytes of a shared secret, 32 for either group.
pub struct SharedSecret {
    bytes: [u8; 32],
}

impl View for SharedSecret {
    type V = Seq<u8>;

    closed spec fn view(&self) -> Seq<u8> {
        self.bytes@
    }
}

impl SharedSecret {
    fn from_p256(shared: [u8; 32]) -> (r: Self)
        ensures
            r@ == shared@,
    {
        SharedSecret { bytes: shared }
    }

    fn from_x25519(shared: [u8; 32]) -> (r: Self)
        ensures
            r@ == shared@,
    {
        SharedSecret { bytes: shared }
    }

    /// The bytes of the secret.
    pub fn raw_secret_bytes(&self) -> (r: &[u8; 32])
        ensures
            r@ == self@,
    {
        &self.bytes
    }
}

} // verus!
