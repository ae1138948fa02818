//! Laws of the library: what holds of its operations together.

use crate::common::decrypted_read_handler::slot_after;
use crate::common::session_ticket::{
    capped, session_ticket, SessionTicketModel, MAX_TICKET_LIFETIME,
};
use crate::config::{hash_len, PskType, TlsCipherSuite};
use crate::error::TlsError;
use crate::extensions::{extension_block, extension_list};
use crate::handshake::new_session_ticket::{
    empty_ticket, kept, parsed_ticket, TicketModel, MAX_TICKET_LEN, MAX_TICKET_NONCE_LEN,
};
use crate::key_schedule_model::{
    be64, derive_secret, empty_hash, expand_label, finished_verdict, fresh, padded, record_nonce,
    ticket_psk, verify_data, with_early_secret, with_handshake_secret, with_master_secret,
    with_resumption_secret, with_secret, zeros, ReadModel, ScheduleModel, TrafficModel,
};
use crate::label::{
    ascii, be16, hkdf_label, lemma_labels_spell, DERIVED, EXT_BINDER, IV, KEY, RESUMPTION,
    RES_BINDER, RES_MASTER,
};
use crate::parse_buffer::{be16_value, be32_value};
use vstd::prelude::*;

verus! {

/// Different numbers have different bytes.
proof fn lemma_be64_injective(a: u64, b: u64)
    requires
        be64(a) == be64(b),
    ensures
        a == b,
{
    assert(be64(a)[0] == be64(b)[0] && be64(a)[1] == be64(b)[1] && be64(a)[2] == be64(b)[2]
        && be64(a)[3] == be64(b)[3] && be64(a)[4] == be64(b)[4] && be64(a)[5] == be64(b)[5]
        && be64(a)[6] == be64(b)[6] && be64(a)[7] == be64(b)[7]);
    assert(a == b) by (bit_vector)
        requires
            (a >> 56) as u8 == (b >> 56) as u8,
            (a >> 48) as u8 == (b >> 48) as u8,
            (a >> 40) as u8 == (b >> 40) as u8,
            (a >> 32) as u8 == (b >> 32) as u8,
            (a >> 24) as u8 == (b >> 24) as u8,
            (a >> 16) as u8 == (b >> 16) as u8,
            (a >> 8) as u8 == (b >> 8) as u8,
            a as u8 == b as u8,
    ;
}

/// Under one initialisation vector, no two records share a nonce.
pub proof fn law_nonces_differ(a: u64, b: u64, iv: Seq<u8>)
    requires
        iv.len() >= 8,
        a != b,
    ensures
        record_nonce(a, iv) != record_nonce(b, iv),
{
    if record_nonce(a, iv) == record_nonce(b, iv) {
        assert forall|i: int| 0 <= i < 8 implies be64(a)[i] == be64(b)[i] by {
            let j = iv.len() - 8 + i;
            assert(padded(be64(a), iv.len())[j] == be64(a)[i]);
            assert(padded(be64(b), iv.len())[j] == be64(b)[i]);
            assert(record_nonce(a, iv)[j] == record_nonce(b, iv)[j]);
            let (v, x, y) = (iv[j], be64(a)[i], be64(b)[i]);
            assert(v ^ x == v ^ y ==> x == y) by (bit_vector);
        }
        assert(be64(a) =~= be64(b));
        lemma_be64_injective(a, b);
    }
}

/// As long as a direction keeps its initialisation vector, the nonces after
/// different numbers of increments of its counter differ.
pub proof fn law_records_never_share_a_nonce(state: TrafficModel, i: u64, j: u64)
    requires
        state.iv.len() >= 8,
        i != j,
        state.counter + i <= u64::MAX,
        state.counter + j <= u64::MAX,
    ensures
        record_nonce((state.counter + i) as u64, state.iv) != record_nonce(
            (state.counter + j) as u64,
            state.iv,
        ),
{
    law_nonces_differ((state.counter + i) as u64, (state.counter + j) as u64, state.iv);
}

/// The first record goes under the initialisation vector itself.
pub proof fn law_first_nonce_is_iv(iv: Seq<u8>)
    requires
        iv.len() >= 8,
    ensures
        record_nonce(0, iv) == iv,
{
    assert forall|i: int| 0 <= i < iv.len() implies record_nonce(0, iv)[i] == iv[i] by {
        assert((0u64 >> 56) as u8 == 0 && (0u64 >> 48) as u8 == 0 && (0u64 >> 40) as u8 == 0 && (
        0u64 >> 32) as u8 == 0 && (0u64 >> 24) as u8 == 0 && (0u64 >> 16) as u8 == 0 && (0u64 >> 8)
            as u8 == 0 && 0u64 as u8 == 0) by (bit_vector);
        assert(padded(be64(0), iv.len())[i] == 0);
        let v = iv[i];
        assert(v ^ 0 == v) by (bit_vector);
    }
    assert(record_nonce(0, iv) =~= iv);
}

/// An encoded label says which length, label and context it was made of: what is
/// derived for one purpose is never asked of HKDF for another.
pub proof fn law_label_encoding_is_injective(
    len1: u16,
    label1: Seq<u8>,
    context1: Seq<u8>,
    len2: u16,
    label2: Seq<u8>,
    context2: Seq<u8>,
)
    requires
        label1.len() <= 249,
        label2.len() <= 249,
        context1.len() <= 255,
        context2.len() <= 255,
        hkdf_label(len1, label1, context1) == hkdf_label(len2, label2, context2),
    ensures
        len1 == len2,
        label1 == label2,
        context1 == context2,
{
    let e1 = hkdf_label(len1, label1, context1);
    let e2 = hkdf_label(len2, label2, context2);
    assert(e1[0] == (len1 / 256) as u8 && e1[1] == (len1 % 256) as u8);
    assert(e2[0] == (len2 / 256) as u8 && e2[1] == (len2 % 256) as u8);
    assert(e1[2] == (6 + label1.len() % 256) as u8);
    assert(e2[2] == (6 + label2.len() % 256) as u8);
    assert(label1.len() == label2.len());
    assert(e1.subrange(9, 9 + label1.len() as int) =~= label1);
    assert(e2.subrange(9, 9 + label2.len() as int) =~= label2);
    assert(e1.skip(10 + label1.len() as int) =~= context1);
    assert(e2.skip(10 + label2.len() as int) =~= context2);
}

/// The two kinds of pre-shared key never share the input of their binder keys.
pub proof fn law_binder_labels_differ(len: u16, context: Seq<u8>)
    requires
        context.len() <= 255,
    ensures
        hkdf_label(len, EXT_BINDER@, context) != hkdf_label(len, RES_BINDER@, context),
{
    assert(EXT_BINDER@[0] != RES_BINDER@[0]);
    if hkdf_label(len, EXT_BINDER@, context) == hkdf_label(len, RES_BINDER@, context) {
        law_label_encoding_is_injective(
            len,
            EXT_BINDER@,
            context,
            len,
            RES_BINDER@,
            context,
        );
    }
}

/// Without a pre-shared key the early secret is that of an external key of
/// zeros.
pub proof fn law_no_psk_is_a_zero_psk<CipherSuite: TlsCipherSuite>(s: ScheduleModel)
    ensures
        with_early_secret::<CipherSuite>(s, None) == with_early_secret::<CipherSuite>(
            s,
            Some((zeros(hash_len::<CipherSuite>() as nat), PskType::External)),
        ),
{
}

/// The binder key of a pre-shared key comes from the early secret under the
/// label of its kind, over the empty transcript.
pub proof fn law_binder_key<CipherSuite: TlsCipherSuite>(
    s: ScheduleModel,
    psk: Seq<u8>,
    psk_type: PskType,
)
    ensures
        ({
            let (after, r) = with_early_secret::<CipherSuite>(s, Some((psk, psk_type)));
            let early = CipherSuite::spec_hash().extract_of(s.shared.secret, psk);
            let label = match psk_type {
                PskType::External => ascii("ext binder"@),
                PskType::Resumption => ascii("res binder"@),
            };
            r is Ok ==> after.write.binder_key is Some && derive_secret::<CipherSuite>(
                Some(early),
                label,
                empty_hash::<CipherSuite>(),
            ) == Ok::<Seq<u8>, TlsError>(after.write.binder_key->Some_0)
        }),
{
    lemma_labels_spell();
}

/// Before its first step a schedule has no secret: it makes no `Finished` and no
/// binder, accepts no `Finished`, and gives no ticket a key.
pub proof fn law_fresh_schedule_refuses<CipherSuite: TlsCipherSuite>(
    digest: Seq<u8>,
    verify: Seq<u8>,
    nonce: Seq<u8>,
)
    ensures
        ({
            let s = fresh::<CipherSuite>();
            let refused = Err::<Seq<u8>, TlsError>(TlsError::InternalError);
            &&& verify_data::<CipherSuite>(s.write.state.traffic_secret, digest) == refused
            &&& verify_data::<CipherSuite>(s.write.binder_key, digest) == refused
            &&& finished_verdict::<CipherSuite>(
                s.read.state.traffic_secret,
                Some(digest),
                verify,
            ) == Err::<bool, TlsError>(TlsError::InternalError)
            &&& ticket_psk::<CipherSuite>(s.read.resumption_secret, nonce) == refused
        }),
{
}

/// A schedule with another transcript.
pub open spec fn with_transcript(s: ScheduleModel, transcript: Seq<u8>) -> ScheduleModel {
    ScheduleModel { read: ReadModel { transcript, ..s.read }, ..s }
}

/// The secrets of RFC 8446, section 7.1: run from a fresh schedule, over
/// whatever transcripts, the three steps end at the master secret, extracted
/// from zeros under what is derived from the handshake secret, extracted from
/// the shared secret under what is derived from the early secret, extracted from
/// the pre-shared key under zeros.
pub proof fn law_chain_of_secrets<CipherSuite: TlsCipherSuite>(
    psk: Seq<u8>,
    psk_type: PskType,
    shared_secret: Seq<u8>,
    hello_transcript: Seq<u8>,
    finished_transcript: Seq<u8>,
)
    ensures
        ({
            let zero = zeros(hash_len::<CipherSuite>() as nat);
            let (s1, r1) = with_early_secret::<CipherSuite>(
                fresh::<CipherSuite>(),
                Some((psk, psk_type)),
            );
            let (s2, r2) = with_handshake_secret::<CipherSuite>(
                with_transcript(s1, hello_transcript),
                shared_secret,
            );
            let (s3, r3) = with_master_secret::<CipherSuite>(
                with_transcript(s2, finished_transcript),
            );
            let hash = CipherSuite::spec_hash();
            let early = hash.extract_of(zero, psk);
            let salt1 = derive_secret::<CipherSuite>(
                Some(early),
                DERIVED@,
                empty_hash::<CipherSuite>(),
            );
            let handshake = hash.extract_of(salt1->Ok_0, shared_secret);
            let salt2 = derive_secret::<CipherSuite>(
                Some(handshake),
                DERIVED@,
                empty_hash::<CipherSuite>(),
            );
            let master = hash.extract_of(salt2->Ok_0, zero);
            r1 is Ok && r2 is Ok && r3 is Ok ==> {
                &&& salt1 is Ok && salt2 is Ok
                &&& s1.shared.hkdf == Some(early)
                &&& s2.shared.hkdf == Some(handshake)
                &&& s3.shared.hkdf == Some(master)
            }
        }),
{
}

/// Whether the key and the initialisation vector of a direction are those of its
/// traffic secret.
pub open spec fn keyed<CipherSuite: TlsCipherSuite>(state: TrafficModel) -> bool {
    &&& state.traffic_secret is Some
    &&& expand_label::<CipherSuite>(
        state.traffic_secret,
        KEY@,
        Seq::empty(),
        CipherSuite::spec_key_len(),
    ) == Ok::<Seq<u8>, TlsError>(state.key)
    &&& expand_label::<CipherSuite>(
        state.traffic_secret,
        IV@,
        Seq::empty(),
        CipherSuite::spec_iv_len(),
    ) == Ok::<Seq<u8>, TlsError>(state.iv)
}

/// A step that succeeds leaves both directions with fresh traffic secrets of
/// their own labels, over the transcript, with the key and the initialisation
/// vector of these, and with their counters at zero.
pub proof fn law_step_rekeys<CipherSuite: TlsCipherSuite>(
    s: ScheduleModel,
    ikm: Seq<u8>,
    client_label: Seq<u8>,
    server_label: Seq<u8>,
)
    ensures
        ({
            let (after, r) = with_secret::<CipherSuite>(s, ikm, client_label, server_label);
            let secret = Some(CipherSuite::spec_hash().extract_of(s.shared.secret, ikm));
            let digest = CipherSuite::spec_hash().digest_of(s.read.transcript);
            r is Ok ==> {
                &&& after.write.state.counter == 0
                &&& after.read.state.counter == 0
                &&& derive_secret::<CipherSuite>(secret, client_label, digest) == Ok::<
                    Seq<u8>,
                    TlsError,
                >(after.write.state.traffic_secret->Some_0)
                &&& derive_secret::<CipherSuite>(secret, server_label, digest) == Ok::<
                    Seq<u8>,
                    TlsError,
                >(after.read.state.traffic_secret->Some_0)
                &&& after.shared.hkdf == secret
                &&& keyed::<CipherSuite>(after.write.state)
                &&& keyed::<CipherSuite>(after.read.state)
            }
        }),
{
}

/// What the steps of the schedule leave alone, whether they succeed or fail: the
/// transcript and the resumption secret in each, the traffic states in the
/// first, the binder key in the later ones.
pub proof fn law_steps_keep<CipherSuite: TlsCipherSuite>(
    s: ScheduleModel,
    psk: Option<(Seq<u8>, PskType)>,
    ikm: Seq<u8>,
)
    ensures
        ({
            let early = with_early_secret::<CipherSuite>(s, psk).0;
            let handshake = with_handshake_secret::<CipherSuite>(s, ikm).0;
            let master = with_master_secret::<CipherSuite>(s).0;
            &&& early.read == s.read
            &&& early.write.state == s.write.state
            &&& handshake.read.transcript == s.read.transcript
            &&& handshake.read.resumption_secret == s.read.resumption_secret
            &&& handshake.write.binder_key == s.write.binder_key
            &&& master.read.transcript == s.read.transcript
            &&& master.read.resumption_secret == s.read.resumption_secret
            &&& master.write.binder_key == s.write.binder_key
        }),
{
}

/// The resumption secret comes from the master secret, and once it is there
/// every nonce of at most 255 bytes has its pre-shared key. Nothing else
/// changes.
pub proof fn law_resumption_secret_enables_tickets<CipherSuite: TlsCipherSuite>(
    s: ScheduleModel,
    transcript: Seq<u8>,
    nonce: Seq<u8>,
)
    requires
        nonce.len() <= 255,
    ensures
        ({
            let (master, r) = with_master_secret::<CipherSuite>(s);
            let (after, resumption) = with_resumption_secret::<CipherSuite>(master, transcript);
            let zero = zeros(hash_len::<CipherSuite>() as nat);
            let master_secret = CipherSuite::spec_hash().extract_of(s.shared.secret, zero);
            let digest = CipherSuite::spec_hash().digest_of(transcript);
            r is Ok && resumption is Ok ==> {
                &&& derive_secret::<CipherSuite>(Some(master_secret), RES_MASTER@, digest) == Ok::<
                    Seq<u8>,
                    TlsError,
                >(after.read.resumption_secret->Some_0)
                &&& after.read.resumption_secret is Some
                &&& ticket_psk::<CipherSuite>(after.read.resumption_secret, nonce) is Ok
                &&& after.shared == master.shared
                &&& after.write == master.write
                &&& after.read.state == master.read.state
                &&& after.read.transcript == master.read.transcript
            }
        }),
{
}

/// Once there is a resumption secret, no step takes it away, whether it succeeds
/// or fails.
pub proof fn law_resumption_secret_stays<CipherSuite: TlsCipherSuite>(
    s: ScheduleModel,
    psk: Option<(Seq<u8>, PskType)>,
    ikm: Seq<u8>,
    transcript: Seq<u8>,
)
    requires
        s.read.resumption_secret is Some,
    ensures
        with_early_secret::<CipherSuite>(s, psk).0.read.resumption_secret is Some,
        with_handshake_secret::<CipherSuite>(s, ikm).0.read.resumption_secret is Some,
        with_master_secret::<CipherSuite>(s).0.read.resumption_secret is Some,
        with_resumption_secret::<CipherSuite>(s, transcript).0.read.resumption_secret is Some,
{
}

/// A `Finished` made under a secret over a transcript is accepted by whoever
/// holds the same secret and saw the same transcript, and no other code is.
pub proof fn law_finished_is_accepted<CipherSuite: TlsCipherSuite>(
    secret: Option<Seq<u8>>,
    digest: Seq<u8>,
    code: Seq<u8>,
    other: Seq<u8>,
)
    requires
        verify_data::<CipherSuite>(secret, digest) == Ok::<Seq<u8>, TlsError>(code),
        other != code,
    ensures
        finished_verdict::<CipherSuite>(secret, Some(digest), code) == Ok::<bool, TlsError>(true),
        finished_verdict::<CipherSuite>(secret, Some(digest), other) == Ok::<bool, TlsError>(false),
{
}

/// A ticket that is too long is dropped: it is read without failure, and leaves
/// the slot as it was.
pub proof fn law_overlong_ticket_is_dropped<CipherSuite: TlsCipherSuite>(
    t: TicketModel,
    slot: Option<SessionTicketModel>,
    resumption_secret: Option<Seq<u8>>,
)
    requires
        t.nonce.len() > MAX_TICKET_NONCE_LEN || t.ticket.len() > MAX_TICKET_LEN,
    ensures
        kept(t) == empty_ticket(),
        slot_after::<CipherSuite>(slot, resumption_secret, kept(t)) == slot,
{
}

/// A ticket that can be kept replaces what was in the slot, once there is a
/// resumption secret.
pub proof fn law_good_ticket_fills_the_slot<CipherSuite: TlsCipherSuite>(
    t: TicketModel,
    slot: Option<SessionTicketModel>,
    resumption_secret: Seq<u8>,
)
    requires
        0 < t.nonce.len() <= MAX_TICKET_NONCE_LEN,
        0 < t.ticket.len() <= MAX_TICKET_LEN,
    ensures
        slot_after::<CipherSuite>(slot, Some(resumption_secret), kept(t)) == Some(
            session_ticket(
                t,
                CipherSuite::spec_hash().expand_of(
                    resumption_secret,
                    hkdf_label(hash_len::<CipherSuite>(), RESUMPTION@, t.nonce),
                    hash_len::<CipherSuite>() as nat,
                ),
            ),
        ),
{
}

/// From one connection to the next: what a ticket leaves in the slot is its
/// identity, a lifetime of at most seven days, and the key that the resumption
/// secret gives its nonce, and a connection that offers that key to resume
/// proves it with the binder key that the server derives from the same secret.
pub proof fn law_resumption_across_connections<CipherSuite: TlsCipherSuite>(
    t: TicketModel,
    slot: Option<SessionTicketModel>,
    resumption_secret: Seq<u8>,
)
    requires
        0 < t.nonce.len() <= MAX_TICKET_NONCE_LEN,
        0 < t.ticket.len() <= MAX_TICKET_LEN,
    ensures
        ({
            let hash = CipherSuite::spec_hash();
            let len = hash_len::<CipherSuite>();
            let session = slot_after::<CipherSuite>(slot, Some(resumption_secret), kept(t))->Some_0;
            let (next, r) = with_early_secret::<CipherSuite>(
                fresh::<CipherSuite>(),
                Some((session.psk, PskType::Resumption)),
            );
            let psk = hash.expand_of(
                resumption_secret,
                hkdf_label(len, ascii("resumption"@), t.nonce),
                len as nat,
            );
            let early = hash.extract_of(zeros(len as nat), psk);
            &&& slot_after::<CipherSuite>(slot, Some(resumption_secret), kept(t)) is Some
            &&& session.ticket == t.ticket
            &&& session.lifetime_secs == capped(t.lifetime)
            &&& session.lifetime_secs <= MAX_TICKET_LIFETIME
            &&& session.psk == psk
            &&& r is Ok ==> derive_secret::<CipherSuite>(
                Some(early),
                ascii("res binder"@),
                empty_hash::<CipherSuite>(),
            ) == Ok::<Seq<u8>, TlsError>(next.write.binder_key->Some_0)
        }),
{
    lemma_labels_spell();
    law_good_ticket_fills_the_slot::<CipherSuite>(t, slot, resumption_secret);
}

/// The four bytes of `n`, most significant first.
pub open spec fn be32(n: u32) -> Seq<u8> {
    seq![
        (n / 0x100_0000) as u8,
        (n / 0x1_0000 % 256) as u8,
        (n / 256 % 256) as u8,
        (n % 256) as u8,
    ]
}

/// A `NewSessionTicket` on the wire (RFC 8446, section 4.6.1).
pub open spec fn encoded_ticket(t: TicketModel, extensions: Seq<u8>) -> Seq<u8> {
    be32(t.lifetime) + be32(t.age_add) + seq![t.nonce.len() as u8] + t.nonce + be16(
        t.ticket.len() as u16,
    ) + t.ticket + be16(extensions.len() as u16) + extensions
}

/// What comes in front comes out in front.
proof fn lemma_front(front: Seq<u8>, rest: Seq<u8>)
    ensures
        (front + rest).take(front.len() as int) == front,
        (front + rest).skip(front.len() as int) == rest,
{
    assert((front + rest).take(front.len() as int) =~= front);
    assert((front + rest).skip(front.len() as int) =~= rest);
}

/// Two bytes in front are the number that they were made of.
proof fn lemma_be16_front(n: u16, rest: Seq<u8>)
    ensures
        be16_value(be16(n) + rest) == n,
        (be16(n) + rest).skip(2) == rest,
{
    lemma_front(be16(n), rest);
    let b = be16(n) + rest;
    assert(b[0] == be16(n)[0] && b[1] == be16(n)[1]);
}

/// Four bytes in front are the number that they were made of.
proof fn lemma_be32_front(n: u32, rest: Seq<u8>)
    ensures
        be32_value(be32(n) + rest) == n,
        (be32(n) + rest).skip(4) == rest,
{
    lemma_front(be32(n), rest);
    let b = be32(n) + rest;
    assert(b[0] == be32(n)[0] && b[1] == be32(n)[1] && b[2] == be32(n)[2] && b[3] == be32(n)[3]);
}

/// A block of extensions comes off a message as it was put there.
proof fn lemma_extension_block_front(extensions: Seq<u8>, tail: Seq<u8>)
    requires
        extensions.len() <= 0xffff,
    ensures
        extension_block(be16(extensions.len() as u16) + (extensions + tail), 1) == (
            extension_list(extensions, Seq::empty(), 1),
            tail,
        ),
{
    lemma_be16_front(extensions.len() as u16, extensions + tail);
    lemma_front(extensions, tail);
}

/// Reading a ticket off the wire gives back what was written, where that can be
/// kept, and leaves what follows it.
pub proof fn law_ticket_round_trip(t: TicketModel, extensions: Seq<u8>, tail: Seq<u8>)
    requires
        t.nonce.len() <= 255,
        t.ticket.len() <= 0xffff,
        extensions.len() <= 0xffff,
        extension_list(extensions, Seq::empty(), 1) is Ok,
    ensures
        parsed_ticket(encoded_ticket(t, extensions) + tail) == (
            Ok::<TicketModel, TlsError>(kept(t)),
            tail,
        ),
{
    let at_ext = be16(extensions.len() as u16) + (extensions + tail);
    let at_ticket = t.ticket + at_ext;
    let after_nonce = be16(t.ticket.len() as u16) + at_ticket;
    let at_nonce = t.nonce + after_nonce;
    let after_age_add = seq![t.nonce.len() as u8] + at_nonce;
    let after_lifetime = be32(t.age_add) + after_age_add;
    let b = be32(t.lifetime) + after_lifetime;
    assert(encoded_ticket(t, extensions) + tail =~= b);
    lemma_be32_front(t.lifetime, after_lifetime);
    lemma_be32_front(t.age_add, after_age_add);
    lemma_front(seq![t.nonce.len() as u8], at_nonce);
    assert(b.skip(9) =~= at_nonce);
    assert(b[8] == after_age_add[0]);
    lemma_front(t.nonce, after_nonce);
    lemma_be16_front(t.ticket.len() as u16, at_ticket);
    lemma_front(t.ticket, at_ext);
    lemma_extension_block_front(extensions, tail);
}

} // verus!
