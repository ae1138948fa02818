//! Laws of the key schedule, in the terms of RFC 8446, section 7.1: what each
//! step derives, from what, and under which label.

use crate::config::{
    hash_len, is_regular, Aes128GcmSha256, Aes256GcmSha384, HashAlgorithm, PskType, TlsCipherSuite,
};
use crate::crypto::{hmac_sha256, hmac_sha384, sha256, sha384};
use crate::error::TlsError;
use crate::key_schedule::{digest_model, psk_model};
use crate::key_schedule_model::{
    be64, finished_verdict, fresh, padded, record_nonce, ticket_psk, verify_data,
    with_early_secret, with_handshake_secret, with_master_secret, with_resumption_secret,
    with_secret, zeros, ScheduleModel, TrafficModel,
};
use crate::label::{
    be16, hkdf_label, lemma_labels_spell, C_AP_TRAFFIC, C_HS_TRAFFIC, DERIVED, EXT_BINDER,
    FINISHED, IV, KEY, RESUMPTION, RES_BINDER, RES_MASTER, S_AP_TRAFFIC, S_HS_TRAFFIC,
};
use vstd::prelude::*;

verus! {

/// Whether bytes, read by their length fields, are an `HkdfLabel`: two bytes of
/// length, the length of the label with its prefix, the prefix, the label, the
/// length of the context modulo 256, and the context.
pub open spec fn reads_as(info: Seq<u8>, len: int, label: Seq<u8>, context: Seq<u8>) -> bool {
    let at_context = 9 + label.len() as int;
    &&& info.len() == at_context + 1 + context.len()
    &&& info[0] * 256 + info[1] == len
    &&& info[2] == 6 + label.len() % 256
    &&& info[3] == 't' as u8 && info[4] == 'l' as u8 && info[5] == 's' as u8
    &&& info[6] == '1' as u8 && info[7] == '3' as u8 && info[8] == ' ' as u8
    &&& forall|i: int| 0 <= i < label.len() ==> #[trigger] info[9 + i] == label[i]
    &&& info[at_context] == context.len() % 256
    &&& forall|i: int|
        0 <= i < context.len() ==> #[trigger] info[at_context + 1 + i] == context[i]
}

/// Whether the bytes of a label spell a text.
pub open spec fn spells(label: Seq<u8>, text: Seq<char>) -> bool {
    &&& label.len() == text.len()
    &&& forall|i: int| 0 <= i < text.len() ==> #[trigger] label[i] == text[i] as u8
}

/// Whether `out` is HKDF-Expand-Label of a secret: what HKDF-Expand gives for
/// the `HkdfLabel` of a text, a context and a length.
pub open spec fn is_expansion(
    hash: HashAlgorithm,
    secret: Seq<u8>,
    text: Seq<char>,
    context: Seq<u8>,
    len: int,
    out: Seq<u8>,
) -> bool {
    exists|info: Seq<u8>, label: Seq<u8>|
        {
            &&& #[trigger] reads_as(info, len, label, context)
            &&& spells(label, text)
            &&& out == hash.expand_of(secret, info, len as nat)
        }
}

/// An encoded `HkdfLabel`, read by its length fields, gives back what it was made
/// of.
pub proof fn law_label_reads_back(len: u16, label: Seq<u8>, context: Seq<u8>)
    requires
        label.len() % 256 <= 249,
    ensures
        reads_as(hkdf_label(len, label, context), len as int, label, context),
{
    let info = hkdf_label(len, label, context);
    assert(info[0] == (len / 256) as u8 && info[1] == (len % 256) as u8);
    assert(crate::label::TLS13_PREFIX@ =~= seq![0x74u8, 0x6c, 0x73, 0x31, 0x33, 0x20]);
}

/// The two bytes of a number spell it, most significant first.
pub proof fn law_two_bytes(n: u16)
    ensures
        be16(n).len() == 2,
        be16(n)[0] * 256 + be16(n)[1] == n,
{
}

/// What bytes read as is unambiguous: one encoding of each length, label and
/// context.
pub proof fn law_label_is_determined(
    a: Seq<u8>,
    b: Seq<u8>,
    len: int,
    label: Seq<u8>,
    context: Seq<u8>,
)
    requires
        reads_as(a, len, label, context),
        reads_as(b, len, label, context),
    ensures
        a == b,
{
    assert forall|i: int| 0 <= i < a.len() implies a[i] == b[i] by {
        let at = 9 + label.len() as int;
        if 9 <= i < at {
            assert(a[9 + (i - 9)] == label[i - 9]);
            assert(b[9 + (i - 9)] == label[i - 9]);
        } else if i > at {
            assert(a[at + 1 + (i - at - 1)] == context[i - at - 1]);
            assert(b[at + 1 + (i - at - 1)] == context[i - at - 1]);
        }
    }
    assert(a =~= b);
}

/// A label of the schedule is expanded as the RFC says.
proof fn lemma_expansion(
    hash: HashAlgorithm,
    secret: Seq<u8>,
    label: Seq<u8>,
    text: Seq<char>,
    context: Seq<u8>,
    len: u16,
)
    requires
        label.len() <= 249,
        spells(label, text),
    ensures
        is_expansion(
            hash,
            secret,
            text,
            context,
            len as int,
            hash.expand_of(secret, hkdf_label(len, label, context), len as nat),
        ),
{
    law_label_reads_back(len, label, context);
}

/// The labels of the schedule spell the texts of the RFC.
proof fn lemma_texts()
    ensures
        spells(DERIVED@, "derived"@),
        spells(KEY@, "key"@),
        spells(IV@, "iv"@),
        spells(FINISHED@, "finished"@),
        spells(RESUMPTION@, "resumption"@),
        spells(RES_MASTER@, "res master"@),
        spells(EXT_BINDER@, "ext binder"@),
        spells(RES_BINDER@, "res binder"@),
        spells(C_HS_TRAFFIC@, "c hs traffic"@),
        spells(S_HS_TRAFFIC@, "s hs traffic"@),
        spells(C_AP_TRAFFIC@, "c ap traffic"@),
        spells(S_AP_TRAFFIC@, "s ap traffic"@),
{
    lemma_labels_spell();
}

/// Digests, codes and extracted keys are those of the hash itself.
pub proof fn law_hashes(data: Seq<u8>, key: Seq<u8>)
    ensures
        HashAlgorithm::Sha256.digest_of(data) == sha256(data),
        HashAlgorithm::Sha384.digest_of(data) == sha384(data),
        HashAlgorithm::Sha256.mac_of(key, data) == hmac_sha256(key, data),
        HashAlgorithm::Sha384.mac_of(key, data) == hmac_sha384(key, data),
        HashAlgorithm::Sha256.extract_of(key, data) == hmac_sha256(key, data),
        HashAlgorithm::Sha384.extract_of(key, data) == hmac_sha384(key, data),
        HashAlgorithm::Sha256.output_len() == 32,
        HashAlgorithm::Sha384.output_len() == 48,
{
}

/// The first blocks of HKDF-Expand one behind the other.
proof fn lemma_blocks(hash: HashAlgorithm, prk: Seq<u8>, info: Seq<u8>, t: Seq<Seq<u8>>)
    requires
        forall|i: int|
            0 <= i < t.len() ==> #[trigger] t[i] == hash.block_of(prk, info, (i + 1) as nat),
    ensures
        t.flatten() == hash.blocks_of(prk, info, t.len()),
    decreases t.len(),
{
    t.lemma_flatten_and_flatten_alt_are_equivalent();
    if t.len() > 0 {
        let front = t.drop_last();
        lemma_blocks(hash, prk, info, front);
        front.lemma_flatten_and_flatten_alt_are_equivalent();
        assert(t.flatten_alt() == front.flatten_alt() + t.last());
    }
}

/// HKDF-Expand chains blocks, each the HMAC of the one before it, `info` and its
/// number, takes no more of them than it needs, and cuts the last one.
pub proof fn law_expand_is_a_chain_of_blocks(
    hash: HashAlgorithm,
    prk: Seq<u8>,
    info: Seq<u8>,
    len: nat,
)
    ensures
        exists|t: Seq<Seq<u8>>|
            {
                &&& (t.len() - 1) * hash.output_len() < len <= t.len() * hash.output_len()
                &&& forall|i: int|
                    0 <= i < t.len() ==> #[trigger] t[i] == hash.mac_of(
                        prk,
                        (if i == 0 {
                            Seq::empty()
                        } else {
                            t[i - 1]
                        }) + info + seq![(i + 1) as u8],
                    )
                &&& hash.expand_of(prk, info, len) == #[trigger] t.flatten().take(len as int)
            },
{
    let block_len = hash.output_len() as nat;
    let n = (len + block_len - 1) as nat / block_len;
    let t = Seq::new(n, |i: int| hash.block_of(prk, info, (i + 1) as nat));
    lemma_blocks(hash, prk, info, t);
    assert forall|i: int| 0 <= i < t.len() implies #[trigger] t[i] == hash.mac_of(
        prk,
        (if i == 0 {
            Seq::empty()
        } else {
            t[i - 1]
        }) + info + seq![(i + 1) as u8],
    ) by {
        assert(hash.block_of(prk, info, (i + 1) as nat) == hash.mac_of(
            prk,
            hash.block_of(prk, info, i as nat) + info + seq![(i + 1) as u8],
        ));
        if i > 0 {
            assert(t[i - 1] == hash.block_of(prk, info, i as nat));
        } else {
            assert(hash.block_of(prk, info, 0) == Seq::<u8>::empty());
        }
    }
    assert((t.len() - 1) * hash.output_len() < len <= t.len() * hash.output_len()) by {
        match hash {
            HashAlgorithm::Sha256 => {
                assert(n == (len + 31) as nat / 32);
            },
            HashAlgorithm::Sha384 => {
                assert(n == (len + 47) as nat / 48);
            },
        }
    }
    assert(hash.expand_of(prk, info, len) == t.flatten().take(len as int));
}

/// Whether a direction is protected from its first record on, with the traffic
/// secret of a text under a secret and over a digest, and the key and the
/// initialisation vector of that traffic secret.
pub open spec fn protects<CipherSuite: TlsCipherSuite>(
    state: TrafficModel,
    secret: Seq<u8>,
    text: Seq<char>,
    digest: Seq<u8>,
) -> bool {
    let hash = CipherSuite::spec_hash();
    &&& state.counter == 0
    &&& match state.traffic_secret {
        None => false,
        Some(traffic_secret) => {
            &&& is_expansion(
                hash,
                secret,
                text,
                digest,
                hash.output_len() as int,
                traffic_secret,
            )
            &&& is_expansion(
                hash,
                traffic_secret,
                "key"@,
                Seq::empty(),
                CipherSuite::spec_key_len() as int,
                state.key,
            )
            &&& is_expansion(
                hash,
                traffic_secret,
                "iv"@,
                Seq::empty(),
                CipherSuite::spec_iv_len() as int,
                state.iv,
            )
        },
    }
}

/// What a step of the chain that re-keys both directions comes to: a secret
/// extracted from `ikm` under the salt, the client protected under one text and
/// the server under the other, and the salt of the next step. Where the suite
/// has no room for a label, or wants more than HKDF gives, the step stops there
/// and keeps what it has derived so far.
pub open spec fn steps_on<CipherSuite: TlsCipherSuite>(
    s: ScheduleModel,
    ikm: Seq<u8>,
    client_text: Seq<char>,
    server_text: Seq<char>,
    after: ScheduleModel,
    r: Result<(), TlsError>,
) -> bool {
    let hash = CipherSuite::spec_hash();
    let n = hash.output_len() as int;
    let room = CipherSuite::spec_label_buffer_size() as int;
    let secret = hash.extract_of(s.shared.secret, ikm);
    let digest = hash.digest_of(s.read.transcript);
    let nothing = hash.digest_of(Seq::empty());
    let client = after.write.state;
    &&& after.shared.hkdf == Some(secret)
    &&& after.write.binder_key == s.write.binder_key
    &&& after.read.transcript == s.read.transcript
    &&& after.read.resumption_secret == s.read.resumption_secret
    &&& if 22 + digest.len() > room {
        &&& r == Err::<(), TlsError>(TlsError::InternalError)
        &&& after.shared.secret == secret
        &&& client == s.write.state
        &&& after.read.state == s.read.state
    } else if CipherSuite::spec_key_len() > 255 * n || CipherSuite::spec_iv_len() > 255 * n {
        &&& r == Err::<(), TlsError>(TlsError::CryptoError)
        &&& after.shared.secret == secret
        &&& after.read.state == s.read.state
        &&& client.counter == s.write.state.counter
        &&& client.iv == s.write.state.iv
        &&& client.traffic_secret is Some
        &&& is_expansion(hash, secret, client_text, digest, n, client.traffic_secret->Some_0)
        &&& if CipherSuite::spec_key_len() > 255 * n {
            client.key == s.write.state.key
        } else {
            is_expansion(
                hash,
                client.traffic_secret->Some_0,
                "key"@,
                Seq::empty(),
                CipherSuite::spec_key_len() as int,
                client.key,
            )
        }
    } else {
        &&& protects::<CipherSuite>(client, secret, client_text, digest)
        &&& protects::<CipherSuite>(after.read.state, secret, server_text, digest)
        &&& if 17 + nothing.len() > room {
            r == Err::<(), TlsError>(TlsError::InternalError) && after.shared.secret == secret
        } else {
            r == Ok::<(), TlsError>(()) && is_expansion(
                hash,
                secret,
                "derived"@,
                nothing,
                n,
                after.shared.secret,
            )
        }
    }
}

/// Whatever two texts of twelve characters a re-keying step is given, it comes to
/// that step.
proof fn lemma_steps_on<CipherSuite: TlsCipherSuite>(
    s: ScheduleModel,
    ikm: Seq<u8>,
    client_label: Seq<u8>,
    server_label: Seq<u8>,
    client_text: Seq<char>,
    server_text: Seq<char>,
)
    requires
        client_label.len() == 12,
        server_label.len() == 12,
        spells(client_label, client_text),
        spells(server_label, server_text),
    ensures
        ({
            let (after, r) = with_secret::<CipherSuite>(s, ikm, client_label, server_label);
            steps_on::<CipherSuite>(s, ikm, client_text, server_text, after, r)
        }),
{
    lemma_texts();
    let hash = CipherSuite::spec_hash();
    let n = hash.output_len();
    let secret = hash.extract_of(s.shared.secret, ikm);
    let digest = hash.digest_of(s.read.transcript);
    let client = hash.expand_of(secret, hkdf_label(n, client_label, digest), n as nat);
    let server = hash.expand_of(secret, hkdf_label(n, server_label, digest), n as nat);
    let (key_len, iv_len) = (CipherSuite::spec_key_len(), CipherSuite::spec_iv_len());
    lemma_expansion(hash, secret, client_label, client_text, digest, n);
    lemma_expansion(hash, secret, server_label, server_text, digest, n);
    lemma_expansion(hash, client, KEY@, "key"@, Seq::empty(), key_len);
    lemma_expansion(hash, client, IV@, "iv"@, Seq::empty(), iv_len);
    lemma_expansion(hash, server, KEY@, "key"@, Seq::empty(), key_len);
    lemma_expansion(hash, server, IV@, "iv"@, Seq::empty(), iv_len);
    lemma_expansion(hash, secret, DERIVED@, "derived"@, hash.digest_of(Seq::empty()), n);
}

/// The handshake step: the handshake secret comes from the shared secret of the
/// key exchange, the client is protected under `c hs traffic` and the server
/// under `s hs traffic`.
pub proof fn law_handshake_step<CipherSuite: TlsCipherSuite>(s: ScheduleModel, ikm: Seq<u8>)
    ensures
        ({
            let (after, r) = with_handshake_secret::<CipherSuite>(s, ikm);
            steps_on::<CipherSuite>(s, ikm, "c hs traffic"@, "s hs traffic"@, after, r)
        }),
{
    lemma_texts();
    lemma_steps_on::<CipherSuite>(
        s,
        ikm,
        C_HS_TRAFFIC@,
        S_HS_TRAFFIC@,
        "c hs traffic"@,
        "s hs traffic"@,
    );
}

/// The master step: the master secret comes from as many zero bytes as a digest
/// has, the client is protected under `c ap traffic` and the server under `s ap
/// traffic`.
pub proof fn law_master_step<CipherSuite: TlsCipherSuite>(s: ScheduleModel, zero: Seq<u8>)
    requires
        zero.len() == CipherSuite::spec_hash().output_len(),
        forall|i: int| 0 <= i < zero.len() ==> zero[i] == 0,
    ensures
        ({
            let (after, r) = with_master_secret::<CipherSuite>(s);
            steps_on::<CipherSuite>(s, zero, "c ap traffic"@, "s ap traffic"@, after, r)
        }),
{
    lemma_texts();
    assert(zero =~= zeros(hash_len::<CipherSuite>() as nat));
    lemma_steps_on::<CipherSuite>(
        s,
        zero,
        C_AP_TRAFFIC@,
        S_AP_TRAFFIC@,
        "c ap traffic"@,
        "s ap traffic"@,
    );
}

/// The early step: the early secret comes from the pre-shared key under the salt,
/// the binder key from it under the text of the key's kind, and the salt of the
/// next step under `derived`, both over the digest of nothing. It fails where the
/// suite has no room for the label of the binder key, with the early secret
/// extracted.
pub proof fn law_early_step<CipherSuite: TlsCipherSuite>(
    s: ScheduleModel,
    psk: Seq<u8>,
    psk_type: PskType,
)
    ensures
        ({
            let (after, r) = with_early_secret::<CipherSuite>(s, Some((psk, psk_type)));
            let hash = CipherSuite::spec_hash();
            let n = hash.output_len() as int;
            let secret = hash.extract_of(s.shared.secret, psk);
            let nothing = hash.digest_of(Seq::empty());
            let text = match psk_type {
                PskType::External => "ext binder"@,
                PskType::Resumption => "res binder"@,
            };
            &&& after.shared.hkdf == Some(secret)
            &&& after.read == s.read
            &&& after.write.state == s.write.state
            &&& if 20 + nothing.len() > CipherSuite::spec_label_buffer_size() {
                &&& r == Err::<(), TlsError>(TlsError::InternalError)
                &&& after.shared.secret == secret
                &&& after.write == s.write
            } else {
                &&& r == Ok::<(), TlsError>(())
                &&& after.write.binder_key is Some
                &&& is_expansion(hash, secret, text, nothing, n, after.write.binder_key->Some_0)
                &&& is_expansion(hash, secret, "derived"@, nothing, n, after.shared.secret)
            }
        }),
{
    lemma_texts();
    let hash = CipherSuite::spec_hash();
    let n = hash.output_len();
    let secret = hash.extract_of(s.shared.secret, psk);
    let nothing = hash.digest_of(Seq::empty());
    lemma_expansion(hash, secret, EXT_BINDER@, "ext binder"@, nothing, n);
    lemma_expansion(hash, secret, RES_BINDER@, "res binder"@, nothing, n);
    lemma_expansion(hash, secret, DERIVED@, "derived"@, nothing, n);
}

/// Without a pre-shared key the early step is that of as many zero bytes as a
/// digest has, as an external key.
pub proof fn law_early_step_without_psk<CipherSuite: TlsCipherSuite>(
    s: ScheduleModel,
    zero: Seq<u8>,
)
    requires
        zero.len() == CipherSuite::spec_hash().output_len(),
        forall|i: int| 0 <= i < zero.len() ==> zero[i] == 0,
    ensures
        with_early_secret::<CipherSuite>(s, None) == with_early_secret::<CipherSuite>(
            s,
            Some((zero, PskType::External)),
        ),
{
    assert(zero =~= zeros(hash_len::<CipherSuite>() as nat));
}

/// The resumption step: the resumption master secret comes from the secret that
/// was extracted last, under `res master` and over the digest of the transcript
/// that is given; nothing else changes. Without such a secret, or without room
/// for the label, nothing changes at all.
pub proof fn law_resumption_step<CipherSuite: TlsCipherSuite>(
    s: ScheduleModel,
    transcript: Seq<u8>,
)
    ensures
        ({
            let (after, r) = with_resumption_secret::<CipherSuite>(s, transcript);
            let hash = CipherSuite::spec_hash();
            let digest = hash.digest_of(transcript);
            &&& after.shared == s.shared
            &&& after.write == s.write
            &&& after.read.state == s.read.state
            &&& after.read.transcript == s.read.transcript
            &&& match s.shared.hkdf {
                Some(secret) if 20 + digest.len() <= CipherSuite::spec_label_buffer_size() => {
                    &&& r == Ok::<(), TlsError>(())
                    &&& after.read.resumption_secret is Some
                    &&& is_expansion(
                        hash,
                        secret,
                        "res master"@,
                        digest,
                        hash.output_len() as int,
                        after.read.resumption_secret->Some_0,
                    )
                },
                _ => {
                    &&& r == Err::<(), TlsError>(TlsError::InternalError)
                    &&& after.read.resumption_secret == s.read.resumption_secret
                },
            }
        }),
{
    lemma_texts();
    let hash = CipherSuite::spec_hash();
    if s.shared.hkdf is Some {
        lemma_expansion(
            hash,
            s.shared.hkdf->Some_0,
            RES_MASTER@,
            "res master"@,
            hash.digest_of(transcript),
            hash.output_len(),
        );
    }
}

/// The key of a ticket comes from the resumption master secret under
/// `resumption`, over the nonce as it came. There is none before that secret,
/// and none for a nonce of more than 255 bytes.
pub proof fn law_ticket_key<CipherSuite: TlsCipherSuite>(
    resumption_secret: Option<Seq<u8>>,
    nonce: Seq<u8>,
)
    ensures
        match (resumption_secret, ticket_psk::<CipherSuite>(resumption_secret, nonce)) {
            (Some(secret), Ok(psk)) => nonce.len() <= 255 && is_expansion(
                CipherSuite::spec_hash(),
                secret,
                "resumption"@,
                nonce,
                CipherSuite::spec_hash().output_len() as int,
                psk,
            ),
            (Some(_), Err(e)) => nonce.len() > 255 && e == TlsError::InternalError,
            (None, Ok(_)) => false,
            (None, Err(e)) => e == TlsError::InternalError,
        },
{
    lemma_texts();
    let hash = CipherSuite::spec_hash();
    if resumption_secret is Some {
        let secret = resumption_secret->Some_0;
        lemma_expansion(hash, secret, RESUMPTION@, "resumption"@, nonce, hash.output_len());
    }
}

/// The code of a `Finished` message, or of a binder, is the HMAC of the digest
/// under the `finished` key of the secret. There is none without a secret, or
/// without room for the label.
pub proof fn law_finished_code<CipherSuite: TlsCipherSuite>(
    secret: Option<Seq<u8>>,
    digest: Seq<u8>,
)
    ensures
        match (secret, verify_data::<CipherSuite>(secret, digest)) {
            (Some(base), Ok(code)) => {
                &&& CipherSuite::spec_label_buffer_size() >= 18
                &&& exists|key: Seq<u8>|
                    #[trigger] is_expansion(
                        CipherSuite::spec_hash(),
                        base,
                        "finished"@,
                        Seq::empty(),
                        CipherSuite::spec_hash().output_len() as int,
                        key,
                    ) && code == CipherSuite::spec_hash().mac_of(key, digest)
            },
            (Some(_), Err(e)) => {
                CipherSuite::spec_label_buffer_size() < 18 && e == TlsError::InternalError
            },
            (None, Ok(_)) => false,
            (None, Err(e)) => e == TlsError::InternalError,
        },
{
    lemma_texts();
    let hash = CipherSuite::spec_hash();
    if secret is Some {
        let base = secret->Some_0;
        lemma_expansion(hash, base, FINISHED@, "finished"@, Seq::empty(), hash.output_len());
    }
}

/// A `Finished` is accepted exactly when it carries the HMAC of its digest under
/// the `finished` key of the secret. It fails without a secret, without a digest,
/// and without room for the label.
pub proof fn law_finished_verdict<CipherSuite: TlsCipherSuite>(
    secret: Option<Seq<u8>>,
    digest: Option<Seq<u8>>,
    verify: Seq<u8>,
)
    ensures
        match (secret, digest) {
            (Some(base), Some(bytes)) if CipherSuite::spec_label_buffer_size() >= 18 => {
                exists|key: Seq<u8>|
                    #[trigger] is_expansion(
                        CipherSuite::spec_hash(),
                        base,
                        "finished"@,
                        Seq::empty(),
                        CipherSuite::spec_hash().output_len() as int,
                        key,
                    ) && finished_verdict::<CipherSuite>(secret, digest, verify) == Ok::<
                        bool,
                        TlsError,
                    >(verify == CipherSuite::spec_hash().mac_of(key, bytes))
            },
            _ => finished_verdict::<CipherSuite>(secret, digest, verify) == Err::<bool, TlsError>(
                TlsError::InternalError,
            ),
        },
{
    lemma_texts();
    let hash = CipherSuite::spec_hash();
    if secret is Some {
        let base = secret->Some_0;
        lemma_expansion(hash, base, FINISHED@, "finished"@, Seq::empty(), hash.output_len());
    }
}

/// HKDF-Expand-Label is a function of its inputs: whatever is an expansion of the
/// same secret, text, context and length is the same.
pub proof fn law_expansion_is_determined(
    hash: HashAlgorithm,
    secret: Seq<u8>,
    text: Seq<char>,
    context: Seq<u8>,
    len: int,
    a: Seq<u8>,
    b: Seq<u8>,
)
    requires
        is_expansion(hash, secret, text, context, len, a),
        is_expansion(hash, secret, text, context, len, b),
    ensures
        a == b,
{
    let (info_a, label_a) = choose|info: Seq<u8>, label: Seq<u8>|
        {
            &&& #[trigger] reads_as(info, len, label, context)
            &&& spells(label, text)
            &&& a == hash.expand_of(secret, info, len as nat)
        };
    let (info_b, label_b) = choose|info: Seq<u8>, label: Seq<u8>|
        {
            &&& #[trigger] reads_as(info, len, label, context)
            &&& spells(label, text)
            &&& b == hash.expand_of(secret, info, len as nat)
        };
    assert(label_a =~= label_b);
    law_label_is_determined(info_a, info_b, len, label_a, context);
}

/// A schedule starts with zeros for its salt, keys and initialisation vectors, with
/// its counters at zero, over nothing, and without any secret.
pub proof fn law_fresh_schedule<CipherSuite: TlsCipherSuite>()
    ensures
        ({
            let s = fresh::<CipherSuite>();
            let (write, read) = (s.write.state, s.read.state);
            &&& s.shared.secret.len() == CipherSuite::spec_hash().output_len()
            &&& write.key.len() == CipherSuite::spec_key_len()
            &&& write.iv.len() == CipherSuite::spec_iv_len()
            &&& forall|i: int| 0 <= i < s.shared.secret.len() ==> s.shared.secret[i] == 0
            &&& forall|i: int| 0 <= i < write.key.len() ==> write.key[i] == 0
            &&& forall|i: int| 0 <= i < write.iv.len() ==> write.iv[i] == 0
            &&& write.counter == 0
            &&& read == write
            &&& s.read.transcript.len() == 0
            &&& s.shared.hkdf is None
            &&& write.traffic_secret is None
            &&& s.write.binder_key is None
            &&& s.read.resumption_secret is None
        }),
{
}

/// What is handed in is what the schedule works on: the bytes and the kind of a
/// pre-shared key, and the bytes of a digest.
pub proof fn law_arguments(psk: &[u8], psk_type: PskType, digest: Vec<u8>)
    ensures
        psk_model(Some((psk, psk_type))) == Some((psk@, psk_type)),
        psk_model(None) == None::<(Seq<u8>, PskType)>,
        digest_model(Some(digest)) == Some(digest@),
        digest_model(None) == None::<Seq<u8>>,
{
}

/// A padded input keeps its bytes at the end, behind zeros.
pub proof fn law_padding(input: Seq<u8>, len: nat)
    requires
        input.len() <= len,
    ensures
        padded(input, len).len() == len,
        forall|i: int| 0 <= i < len - input.len() ==> padded(input, len)[i] == 0,
        forall|i: int|
            0 <= i < input.len() ==> #[trigger] padded(input, len)[len - input.len() + i]
                == input[i],
{
}

/// The eight bytes of a number add up to it.
proof fn lemma_be64_value(n: u64)
    ensures
        be64(n)[0] * 0x100_0000_0000_0000 + be64(n)[1] * 0x1_0000_0000_0000 + be64(n)[2]
            * 0x100_0000_0000 + be64(n)[3] * 0x1_0000_0000 + be64(n)[4] * 0x100_0000 + be64(n)[5]
            * 0x1_0000 + be64(n)[6] * 0x100 + be64(n)[7] == n,
{
    let (q1, q2, q3, q4) = (n >> 8, n >> 16, n >> 24, n >> 32);
    let (q5, q6, q7) = (n >> 40, n >> 48, n >> 56);
    assert((n >> 8) == n / 256 && (n >> 16) == (n >> 8) / 256 && (n >> 24) == (n >> 16) / 256 && (n
        >> 32) == (n >> 24) / 256) by (bit_vector);
    assert((n >> 40) == (n >> 32) / 256 && (n >> 48) == (n >> 40) / 256 && (n >> 56) == (n >> 48)
        / 256 && (n >> 56) < 256) by (bit_vector);
    assert(n as u8 == n % 256 && q1 as u8 == q1 % 256 && q2 as u8 == q2 % 256 && q3 as u8 == q3
        % 256) by (bit_vector);
    assert(q4 as u8 == q4 % 256 && q5 as u8 == q5 % 256 && q6 as u8 == q6 % 256 && q7 as u8 == q7
        % 256) by (bit_vector);
    assert(n == q1 * 256 + be64(n)[7]);
    assert(q1 == q2 * 256 + be64(n)[6]);
    assert(q2 == q3 * 256 + be64(n)[5]);
    assert(q3 == q4 * 256 + be64(n)[4]);
    assert(q4 == q5 * 256 + be64(n)[3]);
    assert(q5 == q6 * 256 + be64(n)[2]);
    assert(q6 == q7 * 256 + be64(n)[1]);
    assert(q7 == be64(n)[0]);
}

/// A record's nonce over the initialisation vector spells the number of the
/// record in its last eight bytes, most significant first; in front of these it
/// is the initialisation vector.
pub proof fn law_nonce_spells_the_counter(counter: u64, iv: Seq<u8>)
    requires
        iv.len() >= 8,
    ensures
        ({
            let nonce = record_nonce(counter, iv);
            let at = iv.len() - 8;
            let digit = |i: int| (nonce[at + i] ^ iv[at + i]) as int;
            &&& nonce.len() == iv.len()
            &&& forall|i: int| 0 <= i < at ==> nonce[i] == iv[i]
            &&& digit(0) * 0x100_0000_0000_0000 + digit(1) * 0x1_0000_0000_0000 + digit(2)
                * 0x100_0000_0000 + digit(3) * 0x1_0000_0000 + digit(4) * 0x100_0000 + digit(5)
                * 0x1_0000 + digit(6) * 0x100 + digit(7) == counter
        }),
{
    let nonce = record_nonce(counter, iv);
    let at = iv.len() - 8;
    assert forall|i: int| 0 <= i < at implies nonce[i] == iv[i] by {
        assert(padded(be64(counter), iv.len())[i] == 0);
        let v = iv[i];
        assert(v ^ 0 == v) by (bit_vector);
    }
    assert forall|i: int| 0 <= i < 8 implies #[trigger] (nonce[at + i] ^ iv[at + i]) == be64(
        counter,
    )[i] by {
        assert(padded(be64(counter), iv.len())[at + i] == be64(counter)[i]);
        let (v, x) = (iv[at + i], be64(counter)[i]);
        assert((v ^ x) ^ v == x) by (bit_vector);
    }
    lemma_be64_value(counter);
}

/// The parameters of the two suites.
pub proof fn law_suites()
    ensures
        Aes128GcmSha256::spec_hash() == HashAlgorithm::Sha256,
        Aes128GcmSha256::spec_key_len() == 16,
        Aes128GcmSha256::spec_iv_len() == 12,
        Aes128GcmSha256::spec_label_buffer_size() == 22 + 32,
        Aes256GcmSha384::spec_hash() == HashAlgorithm::Sha384,
        Aes256GcmSha384::spec_key_len() == 32,
        Aes256GcmSha384::spec_iv_len() == 12,
        Aes256GcmSha384::spec_label_buffer_size() == 22 + 48,
{
}

/// A suite is regular exactly when HKDF can give its key and its initialisation
/// vector, a counter fits in the latter, and there is room for a label of twelve
/// bytes over a digest.
pub proof fn law_regular_suites<CipherSuite: TlsCipherSuite>()
    ensures
        ({
            let n = CipherSuite::spec_hash().output_len() as int;
            &&& hash_len::<CipherSuite>() == n
            &&& is_regular::<CipherSuite>() <==> CipherSuite::spec_key_len() <= 255 * n
                && CipherSuite::spec_iv_len() <= 255 * n && CipherSuite::spec_iv_len() >= 8
                && CipherSuite::spec_label_buffer_size() >= 22 + n
        }),
{
}

} // verus!
