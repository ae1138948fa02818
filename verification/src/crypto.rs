//! Digests, HKDF and HMAC of the hash algorithms.
//!
//! The functions at the top of this module hand their arguments to the `sha2`,
//! `hkdf` and `hmac` crates. Digests and HMAC have a name for each hash, HKDF is
//! stated over HMAC, and the methods of [`HashAlgorithm`] pick by algorithm.

use crate::config::HashAlgorithm;
use vstd::prelude::*;

verus! {

/// The error of `hkdf::Hkdf::from_prk`.
#[verifier::external_type_specification]
#[verifier::external_body]
pub struct ExInvalidPrkLength(hkdf::InvalidPrkLength);

/// The error of `hkdf::Hkdf::expand`.
#[verifier::external_type_specification]
#[verifier::external_body]
pub struct ExHkdfInvalidLength(hkdf::InvalidLength);

/// The error of `hmac::Mac::new_from_slice`.
#[verifier::external_type_specification]
#[verifier::external_body]
pub struct ExMacInvalidLength(digest::InvalidLength);

/// The error of `hmac::Mac::verify`.
#[verifier::external_type_specification]
#[verifier::external_body]
pub struct ExMacError(digest::MacError);

/// The SHA-256 digest of `data`.
pub uninterp spec fn sha256(data: Seq<u8>) -> Seq<u8>;

/// The SHA-384 digest of `data`.
pub uninterp spec fn sha384(data: Seq<u8>) -> Seq<u8>;

/// HMAC-SHA-256 of `message` under `key`.
pub uninterp spec fn hmac_sha256(key: Seq<u8>, message: Seq<u8>) -> Seq<u8>;

/// HMAC-SHA-384 of `message` under `key`.
pub uninterp spec fn hmac_sha384(key: Seq<u8>, message: Seq<u8>) -> Seq<u8>;

/// `sha2::Sha256::digest`: the result is [`sha256`] of the input, 32 bytes.
#[verifier::external_body]
fn sha256_digest(data: &[u8]) -> (r: Vec<u8>)
    ensures
        r@ == sha256(data@),
        r@.len() == 32,
{
    <sha2::Sha256 as sha2::Digest>::digest(data).to_vec()
}

/// `sha2::Sha384::digest`: the result is [`sha384`] of the input, 48 bytes.
#[verifier::external_body]
fn sha384_digest(data: &[u8]) -> (r: Vec<u8>)
    ensures
        r@ == sha384(data@),
        r@.len() == 48,
{
    <sha2::Sha384 as sha2::Digest>::digest(data).to_vec()
}

/// `hkdf::Hkdf::extract` over SHA-256 with a salt: the pseudorandom key is the
/// HMAC of the input under the salt, 32 bytes.
#[verifier::external_body]
fn sha256_extract(salt: &[u8], ikm: &[u8]) -> (r: Vec<u8>)
    ensures
        r@ == hmac_sha256(salt@, ikm@),
        r@.len() == 32,
{
    hkdf::Hkdf::<sha2::Sha256, hmac::SimpleHmac<sha2::Sha256>>::extract(Some(salt), ikm).0.to_vec()
}

/// `hkdf::Hkdf::extract` over SHA-384 with a salt: the pseudorandom key is the
/// HMAC of the input under the salt, 48 bytes.
#[verifier::external_body]
fn sha384_extract(salt: &[u8], ikm: &[u8]) -> (r: Vec<u8>)
    ensures
        r@ == hmac_sha384(salt@, ikm@),
        r@.len() == 48,
{
    hkdf::Hkdf::<sha2::Sha384, hmac::SimpleHmac<sha2::Sha384>>::extract(Some(salt), ikm).0.to_vec()
}

/// `hkdf::Hkdf::from_prk` over SHA-256: it takes every key of at least 32
/// bytes and no other.
#[verifier::external_body]
fn sha256_from_prk(prk: &[u8]) -> (r: Result<(), hkdf::InvalidPrkLength>)
    ensures
        r is Ok <==> prk@.len() >= 32,
{
    match hkdf::Hkdf::<sha2::Sha256, hmac::SimpleHmac<sha2::Sha256>>::from_prk(prk) {
        Ok(_) => Ok(()),
        Err(error) => Err(error),
    }
}

/// `hkdf::Hkdf::from_prk` over SHA-384: it takes every key of at least 48
/// bytes and no other.
#[verifier::external_body]
fn sha384_from_prk(prk: &[u8]) -> (r: Result<(), hkdf::InvalidPrkLength>)
    ensures
        r is Ok <==> prk@.len() >= 48,
{
    match hkdf::Hkdf::<sha2::Sha384, hmac::SimpleHmac<sha2::Sha384>>::from_prk(prk) {
        Ok(_) => Ok(()),
        Err(error) => Err(error),
    }
}

/// `hkdf::Hkdf::expand` over SHA-256, on the instance that `from_prk` makes of
/// `prk`: it fills an output of at most 255 digests with the front of the
/// blocks of RFC 5869, section 2.3, and refuses a longer one.
#[verifier::external_body]
fn sha256_expand(prk: &[u8], info: &[u8], len: u16) -> (r: Result<Vec<u8>, hkdf::InvalidLength>)
    requires
        prk@.len() >= 32,
    ensures
        r is Ok <==> len <= 255 * 32,
        r matches Ok(okm) ==> okm@ == HashAlgorithm::Sha256.expand_of(prk@, info@, len as nat)
            && okm@.len() == len,
{
    let mut okm = vec![0u8; len as usize];
    hkdf::Hkdf::<sha2::Sha256, hmac::SimpleHmac<sha2::Sha256>>::from_prk(prk)
        .unwrap()
        .expand(info, &mut okm)?;
    Ok(okm)
}

/// `hkdf::Hkdf::expand` over SHA-384, on the instance that `from_prk` makes of
/// `prk`: it fills an output of at most 255 digests with the front of the
/// blocks of RFC 5869, section 2.3, and refuses a longer one.
#[verifier::external_body]
fn sha384_expand(prk: &[u8], info: &[u8], len: u16) -> (r: Result<Vec<u8>, hkdf::InvalidLength>)
    requires
        prk@.len() >= 48,
    ensures
        r is Ok <==> len <= 255 * 48,
        r matches Ok(okm) ==> okm@ == HashAlgorithm::Sha384.expand_of(prk@, info@, len as nat)
            && okm@.len() == len,
{
    let mut okm = vec![0u8; len as usize];
    hkdf::Hkdf::<sha2::Sha384, hmac::SimpleHmac<sha2::Sha384>>::from_prk(prk)
        .unwrap()
        .expand(info, &mut okm)?;
    Ok(okm)
}

/// `hmac::SimpleHmac` over SHA-256, made with `new_from_slice`, fed once and
/// finalised: every key is taken, and the code is [`hmac_sha256`], 32 bytes.
#[verifier::external_body]
fn sha256_mac(key: &[u8], message: &[u8]) -> (r: Result<Vec<u8>, digest::InvalidLength>)
    ensures
        r is Ok,
        r matches Ok(code) ==> code@ == hmac_sha256(key@, message@) && code@.len() == 32,
{
    let mut mac = <hmac::SimpleHmac<sha2::Sha256> as hmac::Mac>::new_from_slice(key)?;
    hmac::Mac::update(&mut mac, message);
    Ok(hmac::Mac::finalize(mac).into_bytes().to_vec())
}

/// `hmac::SimpleHmac` over SHA-384, made with `new_from_slice`, fed once and
/// finalised: every key is taken, and the code is [`hmac_sha384`], 48 bytes.
#[verifier::external_body]
fn sha384_mac(key: &[u8], message: &[u8]) -> (r: Result<Vec<u8>, digest::InvalidLength>)
    ensures
        r is Ok,
        r matches Ok(code) ==> code@ == hmac_sha384(key@, message@) && code@.len() == 48,
{
    let mut mac = <hmac::SimpleHmac<sha2::Sha384> as hmac::Mac>::new_from_slice(key)?;
    hmac::Mac::update(&mut mac, message);
    Ok(hmac::Mac::finalize(mac).into_bytes().to_vec())
}

/// `hmac::Mac::verify` over SHA-256, on an instance that was fed once: the
/// inner result is `Ok` exactly when the tag is the code of the message. The
/// conversion of the tag panics on any other length than 32.
#[verifier::external_body]
fn sha256_mac_verify(key: &[u8], message: &[u8], tag: &[u8]) -> (r: Result<
    Result<(), digest::MacError>,
    digest::InvalidLength,
>)
    requires
        tag@.len() == 32,
    ensures
        r is Ok,
        r matches Ok(verdict) ==> (verdict is Ok <==> tag@ == hmac_sha256(key@, message@)),
{
    let mut mac = <hmac::SimpleHmac<sha2::Sha256> as hmac::Mac>::new_from_slice(key)?;
    hmac::Mac::update(&mut mac, message);
    Ok(hmac::Mac::verify(mac, tag.into()))
}

/// `hmac::Mac::verify` over SHA-384, on an instance that was fed once: the
/// inner result is `Ok` exactly when the tag is the code of the message. The
/// conversion of the tag panics on any other length than 48.
#[verifier::external_body]
fn sha384_mac_verify(key: &[u8], message: &[u8], tag: &[u8]) -> (r: Result<
    Result<(), digest::MacError>,
    digest::InvalidLength,
>)
    requires
        tag@.len() == 48,
    ensures
        r is Ok,
        r matches Ok(verdict) ==> (verdict is Ok <==> tag@ == hmac_sha384(key@, message@)),
{
    let mut mac = <hmac::SimpleHmac<sha2::Sha384> as hmac::Mac>::new_from_slice(key)?;
    hmac::Mac::update(&mut mac, message);
    Ok(hmac::Mac::verify(mac, tag.into()))
}

impl HashAlgorithm {
    /// The digest of `data`.
    pub open spec fn digest_of(self, data: Seq<u8>) -> Seq<u8> {
        match self {
            HashAlgorithm::Sha256 => sha256(data),
            HashAlgorithm::Sha384 => sha384(data),
        }
    }

    /// HMAC.
    pub open spec fn mac_of(self, key: Seq<u8>, message: Seq<u8>) -> Seq<u8> {
        match self {
            HashAlgorithm::Sha256 => hmac_sha256(key, message),
            HashAlgorithm::Sha384 => hmac_sha384(key, message),
        }
    }

    /// HKDF-Extract (RFC 5869, section 2.2).
    pub open spec fn extract_of(self, salt: Seq<u8>, ikm: Seq<u8>) -> Seq<u8> {
        self.mac_of(salt, ikm)
    }

    /// Block number `n` of HKDF-Expand, counted from one: HMAC of the block
    /// before it, `info` and its number.
    pub open spec fn block_of(self, prk: Seq<u8>, info: Seq<u8>, n: nat) -> Seq<u8>
        decreases n,
    {
        if n == 0 {
            Seq::empty()
        } else {
            self.mac_of(prk, self.block_of(prk, info, (n - 1) as nat) + info + seq![n as u8])
        }
    }

    /// The first `n` blocks of HKDF-Expand.
    pub open spec fn blocks_of(self, prk: Seq<u8>, info: Seq<u8>, n: nat) -> Seq<u8>
        decreases n,
    {
        if n == 0 {
            Seq::empty()
        } else {
            self.blocks_of(prk, info, (n - 1) as nat) + self.block_of(prk, info, n)
        }
    }

    /// HKDF-Expand (RFC 5869, section 2.3): the first `len` bytes of as many
    /// blocks as it takes.
    pub open spec fn expand_of(self, prk: Seq<u8>, info: Seq<u8>, len: nat) -> Seq<u8> {
        let block_len = self.output_len() as nat;
        let n = (len + block_len - 1) as nat / block_len;
        self.blocks_of(prk, info, n).take(len as int)
    }

    /// The digest of `data`.
    pub fn digest(self, data: &[u8]) -> (r: Vec<u8>)
        ensures
            r@ == self.digest_of(data@),
            r@.len() == self.output_len(),
    {
        match self {
            HashAlgorithm::Sha256 => sha256_digest(data),
            HashAlgorithm::Sha384 => sha384_digest(data),
        }
    }

    /// HKDF-Extract: the pseudorandom key for `ikm` under `salt`.
    pub fn extract(self, salt: &[u8], ikm: &[u8]) -> (r: Vec<u8>)
        ensures
            r@ == self.extract_of(salt@, ikm@),
            r@.len() == self.output_len(),
    {
        match self {
            HashAlgorithm::Sha256 => sha256_extract(salt, ikm),
            HashAlgorithm::Sha384 => sha384_extract(salt, ikm),
        }
    }

    /// Whether `prk` is long enough for HKDF-Expand.
    pub fn from_prk(self, prk: &[u8]) -> (r: Result<(), hkdf::InvalidPrkLength>)
        ensures
            r is Ok <==> prk@.len() >= self.output_len(),
    {
        match self {
            HashAlgorithm::Sha256 => sha256_from_prk(prk),
            HashAlgorithm::Sha384 => sha384_from_prk(prk),
        }
    }

    /// HKDF-Expand: `len` bytes from `prk` for `info`, at most 255 digests.
    pub fn expand(self, prk: &[u8], info: &[u8], len: u16) -> (r: Result<
        Vec<u8>,
        hkdf::InvalidLength,
    >)
        requires
            prk@.len() >= self.output_len(),
        ensures
            r is Ok <==> len <= 255 * self.output_len(),
            r matches Ok(okm) ==> okm@ == self.expand_of(prk@, info@, len as nat) && okm@.len()
                == len,
    {
        match self {
            HashAlgorithm::Sha256 => sha256_expand(prk, info, len),
            HashAlgorithm::Sha384 => sha384_expand(prk, info, len),
        }
    }

    /// HMAC of `message` under `key`.
    pub fn mac(self, key: &[u8], message: &[u8]) -> (r: Result<Vec<u8>, digest::InvalidLength>)
        ensures
            r is Ok,
            r matches Ok(code) ==> code@ == self.mac_of(key@, message@) && code@.len()
                == self.output_len(),
    {
        match self {
            HashAlgorithm::Sha256 => sha256_mac(key, message),
            HashAlgorithm::Sha384 => sha384_mac(key, message),
        }
    }

    /// Whether `tag` is the HMAC of `message` under `key`.
    pub fn mac_verify(self, key: &[u8], message: &[u8], tag: &[u8]) -> (r: Result<
        Result<(), digest::MacError>,
        digest::InvalidLength,
    >)
        requires
            tag@.len() == self.output_len(),
        ensures
            r is Ok,
            r matches Ok(verdict) ==> (verdict is Ok <==> tag@ == self.mac_of(key@, message@)),
    {
        match self {
            HashAlgorithm::Sha256 => sha256_mac_verify(key, message, tag),
            HashAlgorithm::Sha384 => sha384_mac_verify(key, message, tag),
        }
    }
}

} // verus!
