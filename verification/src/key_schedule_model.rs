//! What the key schedule is in a state, and what each step makes of it.
//!
//! A secret is its bytes, or `None` before it was derived. The steps follow RFC
//! 8446, section 7.1; each says what the state is afterwards and what is
//! returned, the failures of irregular suites with them.

use crate::config::{hash_len, PskType, TlsCipherSuite};
use crate::error::TlsError;
use crate::label::{
    hkdf_label, C_AP_TRAFFIC, C_HS_TRAFFIC, DERIVED, EXT_BINDER, FINISHED, IV, KEY, RESUMPTION,
    RES_BINDER, RES_MASTER, S_AP_TRAFFIC, S_HS_TRAFFIC,
};
use vstd::prelude::*;

verus! {

/// `n` zero bytes.
pub open spec fn zeros(n: nat) -> Seq<u8> {
    Seq::new(n, |i: int| 0u8)
}

/// The eight bytes of `n`, most significant first.
pub open spec fn be64(n: u64) -> Seq<u8> {
    seq![
        (n >> 56) as u8,
        (n >> 48) as u8,
        (n >> 40) as u8,
        (n >> 32) as u8,
        (n >> 24) as u8,
        (n >> 16) as u8,
        (n >> 8) as u8,
        n as u8,
    ]
}

/// `input` with zero bytes in front, `len` bytes in all.
pub open spec fn padded(input: Seq<u8>, len: nat) -> Seq<u8> {
    zeros((len - input.len()) as nat) + input
}

/// The nonce of record number `counter`: the padded counter over the
/// initialisation vector, bit by bit (RFC 8446, section 5.3).
pub open spec fn record_nonce(counter: u64, iv: Seq<u8>) -> Seq<u8> {
    Seq::new(iv.len(), |i: int| iv[i] ^ padded(be64(counter), iv.len())[i])
}

/// The state of the secret chain: the salt of the next extraction, and the
/// secret that was extracted last.
pub struct SharedModel {
    pub secret: Seq<u8>,
    pub hkdf: Option<Seq<u8>>,
}

/// The state of one direction of record protection.
pub struct TrafficModel {
    pub traffic_secret: Option<Seq<u8>>,
    pub counter: u64,
    pub key: Seq<u8>,
    pub iv: Seq<u8>,
}

/// The state of the client's direction.
pub struct WriteModel {
    pub state: TrafficModel,
    pub binder_key: Option<Seq<u8>>,
}

/// The state of the server's direction.
pub struct ReadModel {
    pub state: TrafficModel,
    pub transcript: Seq<u8>,
    pub resumption_secret: Option<Seq<u8>>,
}

/// The state of a key schedule.
pub struct ScheduleModel {
    pub shared: SharedModel,
    pub write: WriteModel,
    pub read: ReadModel,
}

/// HKDF-Expand-Label over a secret that may not be there yet.
pub open spec fn expand_label<CipherSuite: TlsCipherSuite>(
    secret: Option<Seq<u8>>,
    label: Seq<u8>,
    context: Seq<u8>,
    len: u16,
) -> Result<Seq<u8>, TlsError> {
    let info = hkdf_label(len, label, context);
    if info.len() > CipherSuite::spec_label_buffer_size() {
        Err(TlsError::InternalError)
    } else {
        match secret {
            None => Err(TlsError::InternalError),
            Some(prk) => if len > 255 * hash_len::<CipherSuite>() {
                Err(TlsError::CryptoError)
            } else {
                Ok(CipherSuite::spec_hash().expand_of(prk, info, len as nat))
            },
        }
    }
}

/// Derive-Secret: a label over a digest, as long as a digest.
pub open spec fn derive_secret<CipherSuite: TlsCipherSuite>(
    secret: Option<Seq<u8>>,
    label: Seq<u8>,
    digest: Seq<u8>,
) -> Result<Seq<u8>, TlsError> {
    expand_label::<CipherSuite>(secret, label, digest, hash_len::<CipherSuite>())
}

/// The digest of the empty transcript.
pub open spec fn empty_hash<CipherSuite: TlsCipherSuite>() -> Seq<u8> {
    CipherSuite::spec_hash().digest_of(Seq::empty())
}

/// HKDF-Extract of `ikm` under the current salt.
pub open spec fn initialized<CipherSuite: TlsCipherSuite>(
    shared: SharedModel,
    ikm: Seq<u8>,
) -> SharedModel {
    let secret = CipherSuite::spec_hash().extract_of(shared.secret, ikm);
    SharedModel { secret, hkdf: Some(secret) }
}

/// The salt of the next extraction, from the secret extracted last.
pub open spec fn derived<CipherSuite: TlsCipherSuite>(shared: SharedModel) -> (
    SharedModel,
    Result<(), TlsError>,
) {
    match derive_secret::<CipherSuite>(shared.hkdf, DERIVED@, empty_hash::<CipherSuite>()) {
        Ok(secret) => (SharedModel { secret, ..shared }, Ok(())),
        Err(e) => (shared, Err(e)),
    }
}

/// A new traffic secret for one direction, with its key and its initialisation
/// vector; the record counter starts over.
pub open spec fn rekeyed<CipherSuite: TlsCipherSuite>(
    state: TrafficModel,
    hkdf: Option<Seq<u8>>,
    label: Seq<u8>,
    digest: Seq<u8>,
) -> (TrafficModel, Result<(), TlsError>) {
    match derive_secret::<CipherSuite>(hkdf, label, digest) {
        Err(e) => (state, Err(e)),
        Ok(secret) => {
            let traffic_secret = Some(secret);
            match expand_label::<CipherSuite>(
                traffic_secret,
                KEY@,
                Seq::empty(),
                CipherSuite::spec_key_len(),
            ) {
                Err(e) => (TrafficModel { traffic_secret, ..state }, Err(e)),
                Ok(key) => match expand_label::<CipherSuite>(
                    traffic_secret,
                    IV@,
                    Seq::empty(),
                    CipherSuite::spec_iv_len(),
                ) {
                    Err(e) => (TrafficModel { traffic_secret, key, ..state }, Err(e)),
                    Ok(iv) => (TrafficModel { traffic_secret, counter: 0, key, iv }, Ok(())),
                },
            }
        },
    }
}

/// New traffic secrets for both directions over the current transcript.
pub open spec fn both_rekeyed<CipherSuite: TlsCipherSuite>(
    s: ScheduleModel,
    client_label: Seq<u8>,
    server_label: Seq<u8>,
) -> (ScheduleModel, Result<(), TlsError>) {
    let digest = CipherSuite::spec_hash().digest_of(s.read.transcript);
    let (client, client_result) = rekeyed::<CipherSuite>(
        s.write.state,
        s.shared.hkdf,
        client_label,
        digest,
    );
    let s1 = ScheduleModel { write: WriteModel { state: client, ..s.write }, ..s };
    if client_result is Err {
        (s1, client_result)
    } else {
        let (server, server_result) = rekeyed::<CipherSuite>(
            s.read.state,
            s.shared.hkdf,
            server_label,
            digest,
        );
        (ScheduleModel { read: ReadModel { state: server, ..s.read }, ..s1 }, server_result)
    }
}

/// A schedule before any secret.
pub open spec fn fresh<CipherSuite: TlsCipherSuite>() -> ScheduleModel {
    let state = TrafficModel {
        traffic_secret: None,
        counter: 0,
        key: zeros(CipherSuite::spec_key_len() as nat),
        iv: zeros(CipherSuite::spec_iv_len() as nat),
    };
    ScheduleModel {
        shared: SharedModel { secret: zeros(hash_len::<CipherSuite>() as nat), hkdf: None },
        write: WriteModel { state, binder_key: None },
        read: ReadModel { state, transcript: Seq::empty(), resumption_secret: None },
    }
}

/// The label of the binder key for a kind of pre-shared key.
pub open spec fn binder_label(psk_type: PskType) -> Seq<u8> {
    match psk_type {
        PskType::External => EXT_BINDER@,
        PskType::Resumption => RES_BINDER@,
    }
}

/// The early secret, from a pre-shared key or from zeros, and the binder key.
pub open spec fn with_early_secret<CipherSuite: TlsCipherSuite>(
    s: ScheduleModel,
    psk: Option<(Seq<u8>, PskType)>,
) -> (ScheduleModel, Result<(), TlsError>) {
    let (ikm, psk_type) = match psk {
        Some(p) => p,
        None => (zeros(hash_len::<CipherSuite>() as nat), PskType::External),
    };
    let early = initialized::<CipherSuite>(s.shared, ikm);
    match derive_secret::<CipherSuite>(
        early.hkdf,
        binder_label(psk_type),
        empty_hash::<CipherSuite>(),
    ) {
        Err(e) => (ScheduleModel { shared: early, ..s }, Err(e)),
        Ok(binder_key) => {
            let (shared, result) = derived::<CipherSuite>(early);
            (
                ScheduleModel {
                    shared,
                    write: WriteModel { binder_key: Some(binder_key), ..s.write },
                    ..s
                },
                result,
            )
        },
    }
}

/// One further link of the chain: a secret from `ikm`, the traffic secrets under
/// it, and the salt of the next link.
pub open spec fn with_secret<CipherSuite: TlsCipherSuite>(
    s: ScheduleModel,
    ikm: Seq<u8>,
    client_label: Seq<u8>,
    server_label: Seq<u8>,
) -> (ScheduleModel, Result<(), TlsError>) {
    let s1 = ScheduleModel { shared: initialized::<CipherSuite>(s.shared, ikm), ..s };
    let (s2, result) = both_rekeyed::<CipherSuite>(s1, client_label, server_label);
    if result is Err {
        (s2, result)
    } else {
        let (shared, derived_result) = derived::<CipherSuite>(s2.shared);
        (ScheduleModel { shared, ..s2 }, derived_result)
    }
}

/// The handshake secret, from the shared secret of the key exchange.
pub open spec fn with_handshake_secret<CipherSuite: TlsCipherSuite>(
    s: ScheduleModel,
    ikm: Seq<u8>,
) -> (ScheduleModel, Result<(), TlsError>) {
    with_secret::<CipherSuite>(s, ikm, C_HS_TRAFFIC@, S_HS_TRAFFIC@)
}

/// The master secret.
pub open spec fn with_master_secret<CipherSuite: TlsCipherSuite>(s: ScheduleModel) -> (
    ScheduleModel,
    Result<(), TlsError>,
) {
    with_secret::<CipherSuite>(
        s,
        zeros(hash_len::<CipherSuite>() as nat),
        C_AP_TRAFFIC@,
        S_AP_TRAFFIC@,
    )
}

/// The resumption master secret over a transcript.
pub open spec fn with_resumption_secret<CipherSuite: TlsCipherSuite>(
    s: ScheduleModel,
    transcript: Seq<u8>,
) -> (ScheduleModel, Result<(), TlsError>) {
    match derive_secret::<CipherSuite>(
        s.shared.hkdf,
        RES_MASTER@,
        CipherSuite::spec_hash().digest_of(transcript),
    ) {
        Err(e) => (s, Err(e)),
        Ok(secret) => (
            ScheduleModel {
                read: ReadModel { resumption_secret: Some(secret), ..s.read },
                ..s
            },
            Ok(()),
        ),
    }
}

/// The code of a `Finished` message, or of a binder: HMAC of a transcript
/// digest, under the finished key of a secret.
pub open spec fn verify_data<CipherSuite: TlsCipherSuite>(
    secret: Option<Seq<u8>>,
    digest: Seq<u8>,
) -> Result<Seq<u8>, TlsError> {
    match expand_label::<CipherSuite>(
        secret,
        FINISHED@,
        Seq::empty(),
        hash_len::<CipherSuite>(),
    ) {
        Ok(key) => Ok(CipherSuite::spec_hash().mac_of(key, digest)),
        Err(e) => Err(e),
    }
}

/// Whether `verify` is the code of a digest under a secret. It fails where either
/// is missing.
pub open spec fn finished_verdict<CipherSuite: TlsCipherSuite>(
    secret: Option<Seq<u8>>,
    digest: Option<Seq<u8>>,
    verify: Seq<u8>,
) -> Result<bool, TlsError> {
    match digest {
        None => Err(TlsError::InternalError),
        Some(bytes) => match verify_data::<CipherSuite>(secret, bytes) {
            Ok(code) => Ok(verify == code),
            Err(e) => Err(e),
        },
    }
}

/// The pre-shared key that goes with the ticket of a nonce.
pub open spec fn ticket_psk<CipherSuite: TlsCipherSuite>(
    resumption_secret: Option<Seq<u8>>,
    nonce: Seq<u8>,
) -> Result<Seq<u8>, TlsError> {
    match resumption_secret {
        Some(prk) if nonce.len() <= 255 => Ok(
            CipherSuite::spec_hash().expand_of(
                prk,
                hkdf_label(hash_len::<CipherSuite>(), RESUMPTION@, nonce),
                hash_len::<CipherSuite>() as nat,
            ),
        ),
        _ => Err(TlsError::InternalError),
    }
}

} // verus!
