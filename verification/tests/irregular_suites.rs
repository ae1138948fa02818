use tls_keys::config::{HashAlgorithm, TlsCipherSuite};
use tls_keys::error::TlsError;
use tls_keys::key_schedule::KeySchedule;

/// Has no room for a label over a digest.
struct Cramped;

impl TlsCipherSuite for Cramped {
    fn spec_hash() -> HashAlgorithm {
        Self::hash()
    }

    fn spec_key_len() -> u16 {
        Self::key_len()
    }

    fn spec_iv_len() -> u16 {
        Self::iv_len()
    }

    fn spec_label_buffer_size() -> usize {
        Self::label_buffer_size()
    }

    fn hash() -> HashAlgorithm {
        HashAlgorithm::Sha256
    }

    fn key_len() -> u16 {
        16
    }

    fn iv_len() -> u16 {
        12
    }

    fn label_buffer_size() -> usize {
        20
    }
}

/// Wants a longer key than HKDF gives.
struct Greedy;

impl TlsCipherSuite for Greedy {
    fn spec_hash() -> HashAlgorithm {
        Self::hash()
    }

    fn spec_key_len() -> u16 {
        Self::key_len()
    }

    fn spec_iv_len() -> u16 {
        Self::iv_len()
    }

    fn spec_label_buffer_size() -> usize {
        Self::label_buffer_size()
    }

    fn hash() -> HashAlgorithm {
        HashAlgorithm::Sha256
    }

    fn key_len() -> u16 {
        8161
    }

    fn iv_len() -> u16 {
        12
    }

    fn label_buffer_size() -> usize {
        54
    }
}

#[test]
fn labels_that_do_not_fit_are_refused() {
    let mut s = KeySchedule::<Cramped>::new();
    assert_eq!(s.initialize_early_secret(None), Err(TlsError::InternalError));
    assert_eq!(s.initialize_handshake_secret(&[1]), Err(TlsError::InternalError));
    assert_eq!(s.initialize_master_secret(), Err(TlsError::InternalError));
}

#[test]
fn keys_that_are_too_long_are_refused() {
    let mut s = KeySchedule::<Greedy>::new();
    assert_eq!(s.initialize_early_secret(None), Ok(()));
    assert_eq!(s.initialize_handshake_secret(&[1]), Err(TlsError::CryptoError));
    // The client's traffic secret was set before its key failed.
    assert!(s.create_client_finished().is_ok());
}
