//! Cipher suites and pre-shared key kinds.

use vstd::prelude::*;

verus! {

/// The hash function of a cipher suite.
#[derive(Debug, Clone, Copy, PartialEq, Eq, Structural)]
pub enum HashAlgorithm {
    Sha256,
    Sha384,
}

impl HashAlgorithm {
    /// Length of a digest in bytes.
    pub open spec fn output_len(self) -> u16 {
        match self {
            HashAlgorithm::Sha256 => 32,
            HashAlgorithm::Sha384 => 48,
        }
    }

    /// Length of a digest in bytes.
    pub fn output_size(self) -> (n: u16)
        ensures
            n == self.output_len(),
    {
        match self {
            HashAlgorithm::Sha256 => 32,
            HashAlgorithm::Sha384 => 48,
        }
    }
}

/// The parameters of a TLS 1.3 cipher suite that the key schedule depends on.
pub trait TlsCipherSuite {
    spec fn spec_hash() -> HashAlgorithm;

    spec fn spec_key_len() -> u16;

    spec fn spec_iv_len() -> u16;

    spec fn spec_label_buffer_size() -> usize;

    /// The hash of the suite.
    fn hash() -> (h: HashAlgorithm)
        ensures
            h == Self::spec_hash(),
    ;

    /// Length of the record key in bytes.
    fn key_len() -> (n: u16)
        ensures
            n == Self::spec_key_len(),
    ;

    /// Length of the record initialisation vector in bytes.
    fn iv_len() -> (n: u16)
        ensures
            n == Self::spec_iv_len(),
    ;

    /// Room for an encoded `HkdfLabel` in bytes.
    fn label_buffer_size() -> (n: usize)
        ensures
            n == Self::spec_label_buffer_size(),
    ;
}

/// Length of a digest of the suite's hash.
pub open spec fn hash_len<CipherSuite: TlsCipherSuite>() -> u16 {
    CipherSuite::spec_hash().output_len()
}

/// What every sensible suite has: a key and an initialisation vector that HKDF
/// can produce, an initialisation vector that a record counter fits in, and
/// room for a label of twelve bytes over a digest (the longest that the key
/// schedule uses).
pub open spec fn is_regular<CipherSuite: TlsCipherSuite>() -> bool {
    &&& CipherSuite::spec_key_len() <= 255 * hash_len::<CipherSuite>()
    &&& 8 <= CipherSuite::spec_iv_len() <= 255 * hash_len::<CipherSuite>()
    &&& hash_len::<CipherSuite>() + 22 <= CipherSuite::spec_label_buffer_size()
}

/// `TLS_AES_128_GCM_SHA256`.
#[derive(Debug, Clone, Copy)]
pub struct Aes128GcmSha256;

impl TlsCipherSuite for Aes128GcmSha256 {
    open spec fn spec_hash() -> HashAlgorithm {
        HashAlgorithm::Sha256
    }

    open spec fn spec_key_len() -> u16 {
        16
    }

    open spec fn spec_iv_len() -> u16 {
        12
    }

    open spec fn spec_label_buffer_size() -> usize {
        54
    }

    fn hash() -> (h: HashAlgorithm) {
        HashAlgorithm::Sha256
    }

    fn key_len() -> (n: u16) {
        16
    }

    fn iv_len() -> (n: u16) {
        12
    }

    fn label_buffer_size() -> (n: usize) {
        54
    }
}

/// `TLS_AES_256_GCM_SHA384`.
#[derive(Debug, Clone, Copy)]
pub struct Aes256GcmSha384;

impl TlsCipherSuite for Aes256GcmSha384 {
    open spec fn spec_hash() -> HashAlgorithm {
        HashAlgorithm::Sha384
    }

    open spec fn spec_key_len() -> u16 {
        32
    }

    open spec fn spec_iv_len() -> u16 {
        12
    }

    open spec fn spec_label_buffer_size() -> usize {
        70
    }

    fn hash() -> (h: HashAlgorithm) {
        HashAlgorithm::Sha384
    }

    fn key_len() -> (n: u16) {
        32
    }

    fn iv_len() -> (n: u16) {
        12
    }

    fn label_buffer_size() -> (n: usize) {
        70
    }
}

/// Both suites of this library are regular.
pub proof fn lemma_suites_are_regular()
    ensures
        is_regular::<Aes128GcmSha256>(),
        is_regular::<Aes256GcmSha384>(),
{
}

/// Where a pre-shared key comes from.
#[derive(Debug, Clone, Copy, PartialEq, Eq, Structural)]
pub enum PskType {
    /// Provisioned out of band.
    External,
    /// Derived for a session ticket of an earlier connection.
    Resumption,
}

} // verus!
