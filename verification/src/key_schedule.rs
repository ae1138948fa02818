//! The TLS 1.3 key schedule (RFC 8446, section 7.1) of a client.

use crate::bounded::{info_as_slice, info_bytes, info_extend_from_slice, info_new, info_push};
use crate::config::{hash_len, is_regular, PskType, TlsCipherSuite};
use crate::error::TlsError;
use crate::handshake::binder::PskBinder;
use crate::handshake::finished::Finished;
use crate::key_schedule_model::{
    be64, both_rekeyed, derive_secret, derived, empty_hash, expand_label, finished_verdict, fresh,
    initialized, padded, record_nonce, rekeyed, ticket_psk, verify_data, with_early_secret,
    with_handshake_secret, with_master_secret, with_resumption_secret, zeros, ReadModel,
    ScheduleModel, SharedModel, TrafficModel, WriteModel,
};
use crate::label::{
    be16_bytes, encode_hkdf_label, hkdf_label, C_AP_TRAFFIC, C_HS_TRAFFIC, DERIVED, EXT_BINDER,
    FINISHED, IV, KEY, RESUMPTION, RES_BINDER, RES_MASTER, S_AP_TRAFFIC, S_HS_TRAFFIC,
    TLS13_PREFIX,
};
use crate::transcript::TranscriptHash;
use std::marker::PhantomData;
use vstd::prelude::*;

verus! {

/// A pseudorandom key, ready for HKDF-Expand.
struct Hkdf<CipherSuite: TlsCipherSuite> {
    prk: Vec<u8>,
    suite: PhantomData<CipherSuite>,
}

impl<CipherSuite: TlsCipherSuite> View for Hkdf<CipherSuite> {
    type V = Seq<u8>;

    closed spec fn view(&self) -> Seq<u8> {
        self.prk@
    }
}

impl<CipherSuite: TlsCipherSuite> Hkdf<CipherSuite> {
    #[verifier::type_invariant]
    spec fn long_enough(self) -> bool {
        self.prk@.len() >= hash_len::<CipherSuite>()
    }

    /// HKDF-Extract: the pseudorandom key, and the same key ready to expand.
    fn extract(salt: &[u8], ikm: &[u8]) -> (r: (Vec<u8>, Self))
        ensures
            r.0@ == CipherSuite::spec_hash().extract_of(salt@, ikm@),
            r.0@.len() == hash_len::<CipherSuite>(),
            r.1@ == r.0@,
    {
        let secret = CipherSuite::hash().extract(salt, ikm);
        let prk = vstd::slice::slice_to_vec(secret.as_slice());
        (secret, Hkdf { prk, suite: PhantomData })
    }

    /// A key that is pseudorandom already.
    fn from_prk(prk: &[u8]) -> (r: Result<Self, TlsError>)
        ensures
            match r {
                Ok(hkdf) => prk@.len() >= hash_len::<CipherSuite>() && hkdf@ == prk@,
                Err(e) => prk@.len() < hash_len::<CipherSuite>() && e == TlsError::InternalError,
            },
    {
        match CipherSuite::hash().from_prk(prk) {
            Ok(_) => Ok(Hkdf { prk: vstd::slice::slice_to_vec(prk), suite: PhantomData }),
            Err(_) => Err(TlsError::InternalError),
        }
    }

    /// HKDF-Expand: `len` bytes for `info`.
    fn expand(&self, info: &[u8], len: u16) -> (r: Result<Vec<u8>, TlsError>)
        ensures
            match r {
                Ok(okm) => {
                    &&& len <= 255 * hash_len::<CipherSuite>()
                    &&& okm@ == CipherSuite::spec_hash().expand_of(self@, info@, len as nat)
                    &&& okm@.len() == len
                },
                Err(e) => len > 255 * hash_len::<CipherSuite>() && e == TlsError::CryptoError,
            },
    {
        proof {
            use_type_invariant(self);
        }
        match CipherSuite::hash().expand(self.prk.as_slice(), info, len) {
            Ok(okm) => Ok(okm),
            Err(_) => Err(TlsError::CryptoError),
        }
    }
}

/// A secret of the schedule, once it was derived.
enum Secret<CipherSuite: TlsCipherSuite> {
    Uninitialized,
    Initialized(Hkdf<CipherSuite>),
}

impl<CipherSuite: TlsCipherSuite> View for Secret<CipherSuite> {
    type V = Option<Seq<u8>>;

    closed spec fn view(&self) -> Option<Seq<u8>> {
        match self {
            Secret::Uninitialized => None,
            Secret::Initialized(hkdf) => Some(hkdf@),
        }
    }
}

/// What an expanded label is bound to.
enum ContextType<CipherSuite: TlsCipherSuite> {
    NoContext,
    Hash(Vec<u8>, PhantomData<CipherSuite>),
}

impl<CipherSuite: TlsCipherSuite> View for ContextType<CipherSuite> {
    type V = Seq<u8>;

    closed spec fn view(&self) -> Seq<u8> {
        match self {
            ContextType::NoContext => Seq::empty(),
            ContextType::Hash(digest, _) => digest@,
        }
    }
}

impl<CipherSuite: TlsCipherSuite> ContextType<CipherSuite> {
    /// The digest of a transcript as it stands.
    fn transcript_hash(hash: &TranscriptHash<CipherSuite>) -> (r: Self)
        ensures
            r@ == CipherSuite::spec_hash().digest_of(hash@),
            r@.len() == hash_len::<CipherSuite>(),
    {
        ContextType::Hash(hash.finalize(), PhantomData)
    }

    /// The digest of the empty transcript.
    fn empty_hash() -> (r: Self)
        ensures
            r@ == empty_hash::<CipherSuite>(),
            r@.len() == hash_len::<CipherSuite>(),
    {
        let empty: [u8; 0] = [];
        assert(empty@ =~= Seq::<u8>::empty());
        ContextType::Hash(CipherSuite::hash().digest(empty.as_slice()), PhantomData)
    }
}

impl<CipherSuite: TlsCipherSuite> Secret<CipherSuite> {
    /// Sets the secret, whatever it was.
    fn replace(&mut self, secret: Hkdf<CipherSuite>)
        ensures
            final(self)@ == Some(secret@),
        no_unwind
    {
        *self = Secret::Initialized(secret);
    }

    /// The key behind the secret.
    fn as_ref(&self) -> (r: Result<&Hkdf<CipherSuite>, TlsError>)
        ensures
            match r {
                Ok(hkdf) => self@ == Some(hkdf@),
                Err(e) => self@ is None && e == TlsError::InternalError,
            },
    {
        match self {
            Secret::Initialized(secret) => Ok(secret),
            Secret::Uninitialized => Err(TlsError::InternalError),
        }
    }

    /// HKDF-Expand-Label: `len` bytes for `label` over a context.
    fn make_expanded_hkdf_label(
        &self,
        label: &[u8],
        context_type: ContextType<CipherSuite>,
        len: u16,
    ) -> (r: Result<Vec<u8>, TlsError>)
        requires
            label@.len() % 256 <= 249,
        ensures
            match r {
                Ok(okm) => {
                    &&& expand_label::<CipherSuite>(self@, label@, context_type@, len) == Ok::<
                        Seq<u8>,
                        TlsError,
                    >(okm@)
                    &&& okm@.len() == len
                },
                Err(e) => expand_label::<CipherSuite>(self@, label@, context_type@, len) == Err::<
                    Seq<u8>,
                    TlsError,
                >(e),
            },
    {
        let capacity: usize = CipherSuite::label_buffer_size();
        let info = match &context_type {
            ContextType::NoContext => {
                let empty: [u8; 0] = [];
                assert(empty@ =~= Seq::<u8>::empty());
                encode_hkdf_label(capacity, len, label, empty.as_slice())?
            },
            ContextType::Hash(digest, _) => encode_hkdf_label(
                capacity,
                len,
                label,
                digest.as_slice(),
            )?,
        };
        let hkdf = self.as_ref()?;
        hkdf.expand(info.as_slice(), len)
    }
}

/// The chain of secrets: what the next one is extracted under, and the last one.
pub struct SharedState<CipherSuite: TlsCipherSuite> {
    secret: Vec<u8>,
    hkdf: Secret<CipherSuite>,
}

impl<CipherSuite: TlsCipherSuite> View for SharedState<CipherSuite> {
    type V = SharedModel;

    closed spec fn view(&self) -> SharedModel {
        SharedModel { secret: self.secret@, hkdf: self.hkdf@ }
    }
}

impl<CipherSuite: TlsCipherSuite> SharedState<CipherSuite> {
    #[verifier::type_invariant]
    spec fn sized(self) -> bool {
        self.secret@.len() == hash_len::<CipherSuite>()
    }

    fn new() -> (r: Self)
        ensures
            r@ == fresh::<CipherSuite>().shared,
    {
        SharedState { secret: KeySchedule::<CipherSuite>::zero(), hkdf: Secret::Uninitialized }
    }

    /// Extracts the next secret from `ikm`.
    fn initialize(&mut self, ikm: &[u8])
        ensures
            final(self)@ == initialized::<CipherSuite>(old(self)@, ikm@),
    {
        proof {
            use_type_invariant(&*self);
        }
        let (secret, hkdf) = Hkdf::<CipherSuite>::extract(self.secret.as_slice(), ikm);
        self.hkdf.replace(hkdf);
        self.secret = secret;
    }

    /// Derive-Secret from the last secret.
    fn derive_secret(&self, label: &[u8], context_type: ContextType<CipherSuite>) -> (r: Result<
        Vec<u8>,
        TlsError,
    >)
        requires
            label@.len() % 256 <= 249,
        ensures
            match r {
                Ok(secret) => {
                    &&& derive_secret::<CipherSuite>(self@.hkdf, label@, context_type@) == Ok::<
                        Seq<u8>,
                        TlsError,
                    >(secret@)
                    &&& secret@.len() == hash_len::<CipherSuite>()
                },
                Err(e) => derive_secret::<CipherSuite>(self@.hkdf, label@, context_type@) == Err::<
                    Seq<u8>,
                    TlsError,
                >(e),
            },
    {
        let len: u16 = CipherSuite::hash().output_size();
        self.hkdf.make_expanded_hkdf_label(label, context_type, len)
    }

    /// Makes the last secret the salt of the next extraction.
    fn derived(&mut self) -> (r: Result<(), TlsError>)
        ensures
            (final(self)@, r) == derived::<CipherSuite>(old(self)@),
            is_regular::<CipherSuite>() && old(self)@.hkdf is Some ==> r is Ok,
    {
        self.secret = self.derive_secret(DERIVED.as_slice(), ContextType::empty_hash())?;
        Ok(())
    }
}

/// Record protection in one direction.
pub struct KeyScheduleState<CipherSuite: TlsCipherSuite> {
    traffic_secret: Secret<CipherSuite>,
    counter: u64,
    key: Vec<u8>,
    iv: Vec<u8>,
}

impl<CipherSuite: TlsCipherSuite> View for KeyScheduleState<CipherSuite> {
    type V = TrafficModel;

    closed spec fn view(&self) -> TrafficModel {
        TrafficModel {
            traffic_secret: self.traffic_secret@,
            counter: self.counter,
            key: self.key@,
            iv: self.iv@,
        }
    }
}

impl<CipherSuite: TlsCipherSuite> KeyScheduleState<CipherSuite> {
    #[verifier::type_invariant]
    spec fn sized(self) -> bool {
        &&& self.key@.len() == CipherSuite::spec_key_len()
        &&& self.iv@.len() == CipherSuite::spec_iv_len()
    }

    fn new() -> (r: Self)
        ensures
            r@ == fresh::<CipherSuite>().write.state,
    {
        let key: Vec<u8> = vec![0u8; CipherSuite::key_len() as usize];
        let iv: Vec<u8> = vec![0u8; CipherSuite::iv_len() as usize];
        assert(key@ =~= zeros(CipherSuite::spec_key_len() as nat));
        assert(iv@ =~= zeros(CipherSuite::spec_iv_len() as nat));
        KeyScheduleState { traffic_secret: Secret::Uninitialized, counter: 0, key, iv }
    }

    /// The record key.
    pub fn get_key(&self) -> (r: Result<&[u8], TlsError>)
        ensures
            r matches Ok(key) && key@ == self@.key && key@.len() == CipherSuite::spec_key_len(),
    {
        proof {
            use_type_invariant(self);
        }
        Ok(self.key.as_slice())
    }

    /// The initialisation vector.
    pub fn get_iv(&self) -> (r: Result<&[u8], TlsError>)
        ensures
            r matches Ok(iv) && iv@ == self@.iv && iv@.len() == CipherSuite::spec_iv_len(),
    {
        proof {
            use_type_invariant(self);
        }
        Ok(self.iv.as_slice())
    }

    /// The nonce of the current record. The counter must fit in the
    /// initialisation vector.
    pub fn get_nonce(&self) -> (r: Result<Vec<u8>, TlsError>)
        requires
            CipherSuite::spec_iv_len() >= 8,
        ensures
            r matches Ok(nonce) && nonce@ == record_nonce(self@.counter, self@.iv) && nonce@.len()
                == CipherSuite::spec_iv_len(),
    {
        let iv = self.get_iv()?;
        Ok(KeySchedule::<CipherSuite>::get_nonce(self.counter, iv))
    }

    /// Takes a new traffic secret from the last secret of the chain, with its
    /// key and its initialisation vector, and starts the counter over.
    fn calculate_traffic_secret(
        &mut self,
        label: &[u8],
        shared: &SharedState<CipherSuite>,
        transcript_hash: &TranscriptHash<CipherSuite>,
    ) -> (r: Result<(), TlsError>)
        requires
            label@.len() % 256 <= 249,
        ensures
            (final(self)@, r) == rekeyed::<CipherSuite>(
                old(self)@,
                shared@.hkdf,
                label@,
                CipherSuite::spec_hash().digest_of(transcript_hash@),
            ),
            is_regular::<CipherSuite>() && label@.len() <= 12 && shared@.hkdf is Some ==> r is Ok,
    {
        proof {
            use_type_invariant(&*self);
        }
        let secret = shared.derive_secret(label, ContextType::transcript_hash(transcript_hash))?;
        let traffic_secret = Hkdf::<CipherSuite>::from_prk(secret.as_slice())?;
        self.traffic_secret.replace(traffic_secret);
        self.key = self.traffic_secret.make_expanded_hkdf_label(
            KEY.as_slice(),
            ContextType::NoContext,
            CipherSuite::key_len(),
        )?;
        self.iv = self.traffic_secret.make_expanded_hkdf_label(
            IV.as_slice(),
            ContextType::NoContext,
            CipherSuite::iv_len(),
        )?;
        self.counter = 0;
        Ok(())
    }

    /// Moves on to the next record. There must be one.
    pub fn increment_counter(&mut self)
        requires
            old(self)@.counter < u64::MAX,
        ensures
            final(self)@ == (TrafficModel {
                counter: (old(self)@.counter + 1) as u64,
                ..old(self)@
            }),
    {
        proof {
            use_type_invariant(&*self);
        }
        self.counter = self.counter + 1;
    }
}

/// The key schedule of a client.
pub struct KeySchedule<CipherSuite: TlsCipherSuite> {
    shared: SharedState<CipherSuite>,
    client_state: WriteKeySchedule<CipherSuite>,
    server_state: ReadKeySchedule<CipherSuite>,
}

/// The client's direction: what it writes is protected with.
pub struct WriteKeySchedule<CipherSuite: TlsCipherSuite> {
    state: KeyScheduleState<CipherSuite>,
    binder_key: Secret<CipherSuite>,
}

/// The server's direction: what is read from it is protected with, the
/// transcript, and the secret that tickets resume from.
pub struct ReadKeySchedule<CipherSuite: TlsCipherSuite> {
    state: KeyScheduleState<CipherSuite>,
    transcript_hash: TranscriptHash<CipherSuite>,
    resumption_secret: Secret<CipherSuite>,
}

impl<CipherSuite: TlsCipherSuite> View for WriteKeySchedule<CipherSuite> {
    type V = WriteModel;

    closed spec fn view(&self) -> WriteModel {
        WriteModel { state: self.state@, binder_key: self.binder_key@ }
    }
}

impl<CipherSuite: TlsCipherSuite> View for ReadKeySchedule<CipherSuite> {
    type V = ReadModel;

    closed spec fn view(&self) -> ReadModel {
        ReadModel {
            state: self.state@,
            transcript: self.transcript_hash@,
            resumption_secret: self.resumption_secret@,
        }
    }
}

impl<CipherSuite: TlsCipherSuite> View for KeySchedule<CipherSuite> {
    type V = ScheduleModel;

    closed spec fn view(&self) -> ScheduleModel {
        ScheduleModel {
            shared: self.shared@,
            write: self.client_state@,
            read: self.server_state@,
        }
    }
}

/// A digest in the model.
pub open spec fn digest_model(digest: Option<Vec<u8>>) -> Option<Seq<u8>> {
    match digest {
        Some(bytes) => Some(bytes@),
        None => None,
    }
}

/// A pre-shared key in the model.
pub open spec fn psk_model(psk: Option<(&[u8], PskType)>) -> Option<(Seq<u8>, PskType)> {
    match psk {
        Some((bytes, psk_type)) => Some((bytes@, psk_type)),
        None => None,
    }
}

impl<CipherSuite: TlsCipherSuite> KeySchedule<CipherSuite> {
    /// A schedule before any secret, over the empty transcript.
    pub fn new() -> (r: Self)
        ensures
            r@ == fresh::<CipherSuite>(),
    {
        KeySchedule {
            shared: SharedState::new(),
            client_state: WriteKeySchedule {
                state: KeyScheduleState::new(),
                binder_key: Secret::Uninitialized,
            },
            server_state: ReadKeySchedule {
                state: KeyScheduleState::new(),
                transcript_hash: TranscriptHash::new(),
                resumption_secret: Secret::Uninitialized,
            },
        }
    }

    /// Derives the resumption master secret (RFC 8446, section 7.1) and keeps it
    /// for the tickets to come. It comes from the last secret of the chain, so
    /// this belongs after `initialize_master_secret`, with the transcript from
    /// the `ClientHello` to the client's `Finished`.
    pub fn derive_resumption_master_secret(
        &mut self,
        client_finished_transcript: &TranscriptHash<CipherSuite>,
    ) -> (r: Result<(), TlsError>)
        ensures
            (final(self)@, r) == with_resumption_secret::<CipherSuite>(
                old(self)@,
                client_finished_transcript@,
            ),
            is_regular::<CipherSuite>() && old(self)@.shared.hkdf is Some ==> r is Ok,
    {
        let secret = self.shared.derive_secret(
            RES_MASTER.as_slice(),
            ContextType::transcript_hash(client_finished_transcript),
        )?;
        let hkdf = Hkdf::<CipherSuite>::from_prk(secret.as_slice())?;
        self.server_state.resumption_secret.replace(hkdf);
        Ok(())
    }

    /// The transcript, to append to.
    pub fn transcript_hash(&mut self) -> (r: &mut TranscriptHash<CipherSuite>)
        ensures
            r@ == old(self)@.read.transcript,
            final(self)@ == (ScheduleModel {
                read: ReadModel { transcript: final(r)@, ..old(self)@.read },
                ..old(self)@
            }),
    {
        &mut self.server_state.transcript_hash
    }

    /// Sets the transcript.
    pub fn replace_transcript_hash(&mut self, hash: TranscriptHash<CipherSuite>)
        ensures
            final(self)@ == (ScheduleModel {
                read: ReadModel { transcript: hash@, ..old(self)@.read },
                ..old(self)@
            }),
    {
        self.server_state.transcript_hash = hash;
    }

    /// Both directions, each on its own.
    pub fn as_split(&mut self) -> (r: (
        &mut WriteKeySchedule<CipherSuite>,
        &mut ReadKeySchedule<CipherSuite>,
    ))
        ensures
            r.0@ == old(self)@.write,
            r.1@ == old(self)@.read,
            final(self)@ == (ScheduleModel {
                shared: old(self)@.shared,
                write: final(r.0)@,
                read: final(r.1)@,
            }),
    {
        (&mut self.client_state, &mut self.server_state)
    }

    /// The client's direction.
    pub fn write_state(&mut self) -> (r: &mut WriteKeySchedule<CipherSuite>)
        ensures
            r@ == old(self)@.write,
            final(self)@ == (ScheduleModel { write: final(r)@, ..old(self)@ }),
    {
        &mut self.client_state
    }

    /// The server's direction.
    pub fn read_state(&mut self) -> (r: &mut ReadKeySchedule<CipherSuite>)
        ensures
            r@ == old(self)@.read,
            final(self)@ == (ScheduleModel { read: final(r)@, ..old(self)@ }),
    {
        &mut self.server_state
    }

    /// The client's `Finished`, over the transcript as it stands.
    pub fn create_client_finished(&self) -> (r: Result<Finished, TlsError>)
        ensures
            match (
                r,
                verify_data::<CipherSuite>(
                    self@.write.state.traffic_secret,
                    CipherSuite::spec_hash().digest_of(self@.read.transcript),
                ),
            ) {
                (Ok(finished), Ok(code)) => {
                    &&& finished.verify@ == code
                    &&& finished.verify@.len() == hash_len::<CipherSuite>()
                    &&& finished.hash is None
                },
                (Err(e), Err(expected)) => e == expected,
                _ => false,
            },
    {
        let key = self.client_state.state.traffic_secret.make_expanded_hkdf_label(
            FINISHED.as_slice(),
            ContextType::NoContext,
            CipherSuite::hash().output_size(),
        )?;
        let digest = self.server_state.transcript_hash.finalize();
        match CipherSuite::hash().mac(key.as_slice(), digest.as_slice()) {
            Ok(verify) => Ok(Finished { verify, hash: None }),
            Err(_) => Err(TlsError::CryptoError),
        }
    }

    /// The nonce of record number `counter` under an initialisation vector.
    pub fn get_nonce(counter: u64, iv: &[u8]) -> (r: Vec<u8>)
        requires
            iv@.len() == CipherSuite::spec_iv_len(),
            CipherSuite::spec_iv_len() >= 8,
        ensures
            r@ == record_nonce(counter, iv@),
    {
        let counter_bytes: [u8; 8] = [
            (counter >> 56) as u8,
            (counter >> 48) as u8,
            (counter >> 40) as u8,
            (counter >> 32) as u8,
            (counter >> 24) as u8,
            (counter >> 16) as u8,
            (counter >> 8) as u8,
            counter as u8,
        ];
        assert(counter_bytes@ =~= be64(counter));
        let len: usize = CipherSuite::iv_len() as usize;
        let counter_padded = Self::pad(counter_bytes.as_slice(), len);
        let mut nonce: Vec<u8> = Vec::new();
        let mut i: usize = 0;
        while i < len
            invariant
                i <= len,
                len == iv@.len(),
                counter_padded@ == padded(be64(counter), iv@.len()),
                counter_padded@.len() == len,
                nonce@ == record_nonce(counter, iv@).take(i as int),
            decreases len - i,
        {
            nonce.push(iv[i] ^ counter_padded[i]);
            i += 1;
            assert(nonce@ =~= record_nonce(counter, iv@).take(i as int));
        }
        assert(nonce@ =~= record_nonce(counter, iv@));
        nonce
    }

    /// `input` with zero bytes in front, `len` bytes in all.
    pub fn pad(input: &[u8], len: usize) -> (r: Vec<u8>)
        requires
            input@.len() <= len,
        ensures
            r@ == padded(input@, len as nat),
            r@.len() == len,
    {
        let missing: usize = len - input.len();
        let mut r: Vec<u8> = vec![0u8; missing];
        assert(r@ =~= zeros((len - input@.len()) as nat));
        r.extend_from_slice(input);
        assert(r@ =~= padded(input@, len as nat));
        r
    }

    /// As many zero bytes as a digest has.
    fn zero() -> (r: Vec<u8>)
        ensures
            r@ == zeros(hash_len::<CipherSuite>() as nat),
    {
        let r: Vec<u8> = vec![0u8; CipherSuite::hash().output_size() as usize];
        assert(r@ =~= zeros(hash_len::<CipherSuite>() as nat));
        r
    }

    /// Extracts the early secret and derives the binder key.
    ///
    /// A pre-shared key comes with its kind, which picks the label of the binder
    /// key (RFC 8446, section 4.2.11): `ext binder` for an external one, `res
    /// binder` for one that an earlier ticket gave. Without a pre-shared key
    /// the early secret comes from zeros; a binder key is still derived, as for
    /// an external one, though none will be sent.
    pub fn initialize_early_secret(&mut self, psk: Option<(&[u8], PskType)>) -> (r: Result<
        (),
        TlsError,
    >)
        ensures
            (final(self)@, r) == with_early_secret::<CipherSuite>(old(self)@, psk_model(psk)),
            is_regular::<CipherSuite>() ==> r is Ok,
    {
        let zero = Self::zero();
        let (ikm, psk_type) = match psk {
            Some((bytes, psk_type)) => (bytes, psk_type),
            None => (zero.as_slice(), PskType::External),
        };
        self.shared.initialize(ikm);
        let label: &[u8] = match psk_type {
            PskType::External => EXT_BINDER.as_slice(),
            PskType::Resumption => RES_BINDER.as_slice(),
        };
        let binder_key = self.shared.derive_secret(label, ContextType::empty_hash())?;
        self.client_state.binder_key.replace(Hkdf::<CipherSuite>::from_prk(binder_key.as_slice())?);
        self.shared.derived()
    }

    /// Extracts the handshake secret from the shared secret of the key exchange,
    /// and takes the handshake traffic secrets over the transcript.
    pub fn initialize_handshake_secret(&mut self, ikm: &[u8]) -> (r: Result<(), TlsError>)
        ensures
            (final(self)@, r) == with_handshake_secret::<CipherSuite>(old(self)@, ikm@),
            is_regular::<CipherSuite>() ==> r is Ok,
    {
        self.shared.initialize(ikm);
        self.calculate_traffic_secrets(C_HS_TRAFFIC.as_slice(), S_HS_TRAFFIC.as_slice())?;
        self.shared.derived()
    }

    /// Extracts the master secret, and takes the application traffic secrets
    /// over the transcript.
    pub fn initialize_master_secret(&mut self) -> (r: Result<(), TlsError>)
        ensures
            (final(self)@, r) == with_master_secret::<CipherSuite>(old(self)@),
            is_regular::<CipherSuite>() ==> r is Ok,
    {
        let zero = Self::zero();
        self.shared.initialize(zero.as_slice());
        self.calculate_traffic_secrets(C_AP_TRAFFIC.as_slice(), S_AP_TRAFFIC.as_slice())?;
        self.shared.derived()
    }

    /// Takes new traffic secrets for both directions.
    fn calculate_traffic_secrets(&mut self, client_label: &[u8], server_label: &[u8]) -> (r: Result<
        (),
        TlsError,
    >)
        requires
            client_label@.len() % 256 <= 249,
            server_label@.len() % 256 <= 249,
        ensures
            (final(self)@, r) == both_rekeyed::<CipherSuite>(
                old(self)@,
                client_label@,
                server_label@,
            ),
            is_regular::<CipherSuite>() && client_label@.len() <= 12 && server_label@.len() <= 12
                && old(self)@.shared.hkdf is Some ==> r is Ok,
    {
        self.client_state.state.calculate_traffic_secret(
            client_label,
            &self.shared,
            &self.server_state.transcript_hash,
        )?;
        self.server_state.state.calculate_traffic_secret(
            server_label,
            &self.shared,
            &self.server_state.transcript_hash,
        )?;
        Ok(())
    }
}

impl<CipherSuite: TlsCipherSuite> Default for KeySchedule<CipherSuite> {
    fn default() -> (r: Self)
        ensures
            r@ == fresh::<CipherSuite>(),
    {
        KeySchedule::new()
    }
}

impl<CipherSuite: TlsCipherSuite> WriteKeySchedule<CipherSuite> {
    /// Moves on to the next record. There must be one.
    pub fn increment_counter(&mut self)
        requires
            old(self)@.state.counter < u64::MAX,
        ensures
            final(self)@ == (WriteModel {
                state: TrafficModel {
                    counter: (old(self)@.state.counter + 1) as u64,
                    ..old(self)@.state
                },
                ..old(self)@
            }),
    {
        self.state.increment_counter();
    }

    /// The record key.
    pub fn get_key(&self) -> (r: Result<&[u8], TlsError>)
        ensures
            r matches Ok(key) && key@ == self@.state.key && key@.len()
                == CipherSuite::spec_key_len(),
    {
        self.state.get_key()
    }

    /// The nonce of the current record. The counter must fit in the
    /// initialisation vector.
    pub fn get_nonce(&self) -> (r: Result<Vec<u8>, TlsError>)
        requires
            CipherSuite::spec_iv_len() >= 8,
        ensures
            r matches Ok(nonce) && nonce@ == record_nonce(self@.state.counter, self@.state.iv)
                && nonce@.len() == CipherSuite::spec_iv_len(),
    {
        self.state.get_nonce()
    }

    /// The binder of the pre-shared key over a transcript, the truncated
    /// `ClientHello`.
    pub fn create_psk_binder(&self, transcript_hash: &TranscriptHash<CipherSuite>) -> (r: Result<
        PskBinder,
        TlsError,
    >)
        ensures
            match (
                r,
                verify_data::<CipherSuite>(
                    self@.binder_key,
                    CipherSuite::spec_hash().digest_of(transcript_hash@),
                ),
            ) {
                (Ok(binder), Ok(code)) => {
                    &&& binder.verify@ == code
                    &&& binder.verify@.len() == hash_len::<CipherSuite>()
                },
                (Err(e), Err(expected)) => e == expected,
                _ => false,
            },
    {
        let key = self.binder_key.make_expanded_hkdf_label(
            FINISHED.as_slice(),
            ContextType::NoContext,
            CipherSuite::hash().output_size(),
        )?;
        let digest = transcript_hash.finalize();
        match CipherSuite::hash().mac(key.as_slice(), digest.as_slice()) {
            Ok(verify) => Ok(PskBinder { verify }),
            Err(_) => Err(TlsError::CryptoError),
        }
    }
}

/// Encodes the `HkdfLabel` of a ticket's pre-shared key. The longest is 275
/// bytes: 2 for the length, 1 + 6 + 10 for the label, 1 + 255 for the nonce.
pub fn encode_ticket_label(len: u16, nonce: &[u8]) -> (r: Result<
    heapless::Vec<u8, 320>,
    TlsError,
>)
    ensures
        match r {
            Ok(info) => nonce@.len() <= 255 && info_bytes(info) == hkdf_label(
                len,
                RESUMPTION@,
                nonce@,
            ),
            Err(e) => nonce@.len() > 255 && e == TlsError::InternalError,
        },
{
    if nonce.len() > 255 {
        return Err(TlsError::InternalError);
    }
    let mut info = info_new();
    let written = info_extend_from_slice(&mut info, be16_bytes(len).as_slice()).is_ok()
        && info_push(&mut info, 16).is_ok()
        && info_extend_from_slice(&mut info, TLS13_PREFIX.as_slice()).is_ok()
        && info_extend_from_slice(&mut info, RESUMPTION.as_slice()).is_ok()
        && info_push(&mut info, nonce.len() as u8).is_ok()
        && info_extend_from_slice(&mut info, nonce).is_ok();
    if !written {
        return Err(TlsError::InternalError);
    }
    assert(info_bytes(info) =~= hkdf_label(len, RESUMPTION@, nonce@));
    Ok(info)
}

impl<CipherSuite: TlsCipherSuite> ReadKeySchedule<CipherSuite> {
    /// Moves on to the next record. There must be one.
    pub fn increment_counter(&mut self)
        requires
            old(self)@.state.counter < u64::MAX,
        ensures
            final(self)@ == (ReadModel {
                state: TrafficModel {
                    counter: (old(self)@.state.counter + 1) as u64,
                    ..old(self)@.state
                },
                ..old(self)@
            }),
    {
        self.state.increment_counter();
    }

    /// Whether the resumption master secret was derived, so that tickets can be
    /// given their keys.
    pub fn has_resumption_secret(&self) -> (r: bool)
        ensures
            r == (self@.resumption_secret is Some),
    {
        match self.resumption_secret {
            Secret::Initialized(_) => true,
            Secret::Uninitialized => false,
        }
    }

    /// The pre-shared key of the ticket with a nonce (RFC 8446, section 4.6.1):
    ///
    /// ```text
    /// PSK = HKDF-Expand-Label(resumption_master_secret,
    ///                         "resumption", ticket_nonce, Hash.length)
    /// ```
    ///
    /// It fails where there is no resumption master secret, and on a nonce of
    /// more than 255 bytes.
    pub fn derive_psk_for_ticket(&self, nonce: &[u8]) -> (r: Result<Vec<u8>, TlsError>)
        ensures
            match (r, ticket_psk::<CipherSuite>(self@.resumption_secret, nonce@)) {
                (Ok(psk), Ok(expected)) => {
                    &&& psk@ == expected
                    &&& psk@.len() == hash_len::<CipherSuite>()
                },
                (Err(e), Err(expected)) => e == expected,
                _ => false,
            },
    {
        if nonce.len() > 255 {
            return Err(TlsError::InternalError);
        }
        let hkdf = match &self.resumption_secret {
            Secret::Initialized(hkdf) => hkdf,
            Secret::Uninitialized => return Err(TlsError::InternalError),
        };
        let len: u16 = CipherSuite::hash().output_size();
        let info = encode_ticket_label(len, nonce)?;
        hkdf.expand(info_as_slice(&info), len)
    }

    /// The transcript, to append to.
    pub fn transcript_hash(&mut self) -> (r: &mut TranscriptHash<CipherSuite>)
        ensures
            r@ == old(self)@.transcript,
            final(self)@ == (ReadModel { transcript: final(r)@, ..old(self)@ }),
    {
        &mut self.transcript_hash
    }

    /// The record key.
    pub fn get_key(&self) -> (r: Result<&[u8], TlsError>)
        ensures
            r matches Ok(key) && key@ == self@.state.key && key@.len()
                == CipherSuite::spec_key_len(),
    {
        self.state.get_key()
    }

    /// The nonce of the current record. The counter must fit in the
    /// initialisation vector.
    pub fn get_nonce(&self) -> (r: Result<Vec<u8>, TlsError>)
        requires
            CipherSuite::spec_iv_len() >= 8,
        ensures
            r matches Ok(nonce) && nonce@ == record_nonce(self@.state.counter, self@.state.iv)
                && nonce@.len() == CipherSuite::spec_iv_len(),
    {
        self.state.get_nonce()
    }

    /// Whether the server's `Finished` carries the code of the digest that came
    /// with it. It fails before the traffic secrets are there, and on a message
    /// without a digest.
    pub fn verify_server_finished(&self, finished: &Finished) -> (r: Result<bool, TlsError>)
        requires
            finished.verify@.len() == hash_len::<CipherSuite>(),
        ensures
            r == finished_verdict::<CipherSuite>(
                self@.state.traffic_secret,
                digest_model(finished.hash),
                finished.verify@,
            ),
    {
        let key = self.state.traffic_secret.make_expanded_hkdf_label(
            FINISHED.as_slice(),
            ContextType::NoContext,
            CipherSuite::hash().output_size(),
        )?;
        let digest = match &finished.hash {
            Some(digest) => digest,
            None => return Err(TlsError::InternalError),
        };
        match CipherSuite::hash().mac_verify(
            key.as_slice(),
            digest.as_slice(),
            finished.verify.as_slice(),
        ) {
            Ok(verdict) => Ok(verdict.is_ok()),
            Err(_) => Err(TlsError::InternalError),
        }
    }
}

} // verus!
