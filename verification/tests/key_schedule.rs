use tls_keys::config::{Aes128GcmSha256, Aes256GcmSha384, HashAlgorithm, PskType, TlsCipherSuite};
use tls_keys::error::TlsError;
use tls_keys::handshake::finished::Finished;
use tls_keys::key_schedule::{encode_ticket_label, KeySchedule};
use tls_keys::label::{append, be16_bytes, encode_hkdf_label};
use tls_keys::transcript::TranscriptHash;

fn hex(text: &str) -> Vec<u8> {
    (0..text.len() / 2).map(|i| u8::from_str_radix(&text[2 * i..2 * i + 2], 16).unwrap()).collect()
}

fn transcript<CipherSuite: TlsCipherSuite>(messages: &[&[u8]]) -> TranscriptHash<CipherSuite> {
    let mut t = TranscriptHash::new();
    for message in messages {
        t.update(message);
    }
    t
}

const HELLOS: &[u8] = b"client hello server hello";
const SERVER_FINISHED: &[u8] = b"server finished";
const CLIENT_FINISHED: &[u8] = b"client finished";

/// Runs a schedule up to its handshake secret.
fn in_handshake<CipherSuite: TlsCipherSuite>() -> KeySchedule<CipherSuite> {
    let mut s = KeySchedule::<CipherSuite>::new();
    s.initialize_early_secret(None).unwrap();
    s.transcript_hash().update(HELLOS);
    s.initialize_handshake_secret(&[0x42; 32]).unwrap();
    s
}

/// Runs a schedule up to its master secret.
fn connected<CipherSuite: TlsCipherSuite>() -> KeySchedule<CipherSuite> {
    let mut s = in_handshake::<CipherSuite>();
    s.transcript_hash().update(SERVER_FINISHED);
    s.initialize_master_secret().unwrap();
    s
}

/// Runs a schedule up to its resumption master secret.
fn resumable<CipherSuite: TlsCipherSuite>() -> KeySchedule<CipherSuite> {
    let mut s = connected::<CipherSuite>();
    let all = transcript(&[HELLOS, SERVER_FINISHED, CLIENT_FINISHED]);
    s.derive_resumption_master_secret(&all).unwrap();
    s
}

#[test]
fn handshake_keys_with_sha256() {
    let mut s = in_handshake::<Aes128GcmSha256>();
    let (write, read) = s.as_split();
    assert_eq!(write.get_key().unwrap().to_vec(), hex("af5770194bee6fb616115d4c8320560d"));
    assert_eq!(write.get_nonce().unwrap(), hex("a9616a15981589f22f3d6f5d"));
    assert_eq!(read.get_key().unwrap().to_vec(), hex("3a562848712a2453c0acc09c89f714c3"));
    assert_eq!(read.get_nonce().unwrap(), hex("9fd59485fb3e428d3ef76e6f"));
}

#[test]
fn handshake_keys_with_sha384() {
    let mut s = in_handshake::<Aes256GcmSha384>();
    assert_eq!(
        s.write_state().get_key().unwrap().to_vec(),
        hex("73f4bdfb44b4b19c839cd819d99eda911e3428cb53e4810c743bd76586a41bc7")
    );
    assert_eq!(s.write_state().get_nonce().unwrap(), hex("c41afca718dd6c01a400ba51"));
    assert_eq!(
        s.read_state().get_key().unwrap().to_vec(),
        hex("bb5c237c726876a3485ef956d142366ae6ddd62c86341e99571241c2d0ea9ee5")
    );
    assert_eq!(s.read_state().get_nonce().unwrap(), hex("9ab80a8a0e6aa98cc660b410"));
}

#[test]
fn application_keys_with_sha256() {
    let mut s = connected::<Aes128GcmSha256>();
    let (write, read) = s.as_split();
    assert_eq!(write.get_key().unwrap().to_vec(), hex("41fc3c4ed93b0f7aa8a39691f5a6f799"));
    assert_eq!(write.get_nonce().unwrap(), hex("82f1c766ea387d12c4e32c9c"));
    assert_eq!(read.get_key().unwrap().to_vec(), hex("4b0b99288efb759a5056557f26f3fbe3"));
    assert_eq!(read.get_nonce().unwrap(), hex("4fadbed99adaf8f2ff020e3c"));
}

#[test]
fn application_keys_with_sha384() {
    let mut s = connected::<Aes256GcmSha384>();
    let (write, read) = s.as_split();
    assert_eq!(
        write.get_key().unwrap().to_vec(),
        hex("fd5868259b7247d8c3d7aa8e785ea369d3199bf601ac75bb8de5b11d5ee9b4a1")
    );
    assert_eq!(write.get_nonce().unwrap(), hex("55451f5609b512c3593df970"));
    assert_eq!(
        read.get_key().unwrap().to_vec(),
        hex("f0d37918002c485d6dbb9223e74c478b3e553afecc7c640550df7762abe4d8dd")
    );
    assert_eq!(read.get_nonce().unwrap(), hex("b8d8b887d0f0f2c198a97215"));
}

#[test]
fn client_finished_codes() {
    let mut s = in_handshake::<Aes128GcmSha256>();
    let finished = s.create_client_finished().unwrap();
    assert_eq!(
        finished.verify,
        hex("2dd4c78fc2cc9266d83cc4d0fb0b445c5ba831e91455c7be68edf6c48d06d2fd")
    );
    assert!(finished.hash.is_none());
    s.transcript_hash().update(SERVER_FINISHED);
    assert_eq!(
        s.create_client_finished().unwrap().verify,
        hex("99294293b013955b67546a790f954cd181f370932b9fc8d1b6f9ff78356dea77")
    );
    let mut s = in_handshake::<Aes256GcmSha384>();
    s.transcript_hash().update(SERVER_FINISHED);
    assert_eq!(
        s.create_client_finished().unwrap().verify,
        hex("4478b5d1c8015dd058682421e9410d2981a7563140e442d8262083621cfb455789f45176a12f5a1f954f8ee8f0e8972c")
    );
}

#[test]
fn server_finished_is_verified() {
    let mut s = in_handshake::<Aes128GcmSha256>();
    let code = hex("7ee9a99c41ad330c9679595b686718a5d8f305d2a75d4f7cebf4355613459aea");
    let digest = transcript::<Aes128GcmSha256>(&[HELLOS]).finalize();
    let good = Finished { verify: code.clone(), hash: Some(digest.clone()) };
    assert_eq!(s.read_state().verify_server_finished(&good), Ok(true));
    for i in [0usize, 31] {
        let mut wrong = code.clone();
        wrong[i] ^= 1;
        let bad = Finished { verify: wrong, hash: Some(digest.clone()) };
        assert_eq!(s.read_state().verify_server_finished(&bad), Ok(false));
    }
    let other = transcript::<Aes128GcmSha256>(&[HELLOS, HELLOS]).finalize();
    let bad = Finished { verify: code.clone(), hash: Some(other) };
    assert_eq!(s.read_state().verify_server_finished(&bad), Ok(false));
    let without = Finished { verify: code, hash: None };
    assert_eq!(
        s.read_state().verify_server_finished(&without),
        Err(TlsError::InternalError)
    );
}

#[test]
fn server_finished_is_verified_with_sha384() {
    let mut s = in_handshake::<Aes256GcmSha384>();
    let code = hex("b70300023a9c1af9a971ca9417711205df066cd94c4d6ea24db00d7cb965d8376b6ec7654c0a70449edfc63e03f26679");
    let digest = transcript::<Aes256GcmSha384>(&[HELLOS]).finalize();
    let good = Finished { verify: code.clone(), hash: Some(digest.clone()) };
    assert_eq!(s.read_state().verify_server_finished(&good), Ok(true));
    let bad = Finished { verify: vec![0u8; 48], hash: Some(digest) };
    assert_eq!(s.read_state().verify_server_finished(&bad), Ok(false));
}

fn binder<CipherSuite: TlsCipherSuite>(psk: Option<(&[u8], PskType)>) -> Vec<u8> {
    let mut s = KeySchedule::<CipherSuite>::default();
    s.initialize_early_secret(psk).unwrap();
    s.write_state().create_psk_binder(&transcript(&[b"hello"])).unwrap().verify
}

#[test]
fn binders_with_sha256() {
    let psk = [7u8; 32];
    assert_eq!(
        binder::<Aes128GcmSha256>(Some((&psk, PskType::External))),
        hex("9557c0dd5baf467303c855f8adee9ba3141632d3e6803bc3d324524fec3c64c2")
    );
    assert_eq!(
        binder::<Aes128GcmSha256>(Some((&psk, PskType::Resumption))),
        hex("a9c78b62768cf2d4f493f5265333de8cc35aff9e935ac50ab40e0604da46f6dc")
    );
}

#[test]
fn binders_with_sha384() {
    let psk = [7u8; 48];
    assert_eq!(
        binder::<Aes256GcmSha384>(Some((&psk, PskType::External))),
        hex("c819d476470329f4c6af8081dac929d3b2dfb8bdaa1ef14885e22556d35fe580b1ae619fd5437e7d01b5599db4ae23a7")
    );
    assert_eq!(
        binder::<Aes256GcmSha384>(Some((&psk, PskType::Resumption))),
        hex("5feb9dc1516e3859c497e449e63b4f9b7983a02c6ff45c8b0b8fef0bf22fdd259d8ad7e87622c8ff3cd057bdf7ed0738")
    );
}

#[test]
fn no_psk_is_a_zero_psk() {
    let expected = hex("e2c0be8bd9231d54b28bcf5e8dadecc897f421e188d95ea736351fe8d207a825");
    assert_eq!(binder::<Aes128GcmSha256>(None), expected);
    assert_eq!(binder::<Aes128GcmSha256>(Some((&[0u8; 32], PskType::External))), expected);
    assert_ne!(binder::<Aes128GcmSha256>(Some((&[0u8; 32], PskType::Resumption))), expected);
}

#[test]
fn psk_enters_the_handshake_keys() {
    for psk_type in [PskType::External, PskType::Resumption] {
        let mut s = KeySchedule::<Aes128GcmSha256>::new();
        s.initialize_early_secret(Some((&[7u8; 32], psk_type))).unwrap();
        s.transcript_hash().update(HELLOS);
        s.initialize_handshake_secret(&[0x42; 32]).unwrap();
        assert_eq!(
            s.write_state().get_key().unwrap().to_vec(),
            hex("879c3681fb13ac14e434fdd778bea353")
        );
    }
}

#[test]
fn ticket_keys() {
    let mut s = resumable::<Aes128GcmSha256>();
    assert!(s.read_state().has_resumption_secret());
    assert_eq!(
        s.read_state().derive_psk_for_ticket(&[0, 1]).unwrap(),
        hex("f5673e0d01c3a405ce3736d62e0568745a6cac1570d7fbc70e7517efd30e301b")
    );
    let mut s = resumable::<Aes256GcmSha384>();
    assert_eq!(
        s.read_state().derive_psk_for_ticket(&[0, 1]).unwrap(),
        hex("ee8ee194e48bbfd62ca7842e1a09413e94f28fc41d53085b8574d3df890ca3a1db5892b2d90757ee2b87478f76b8389f")
    );
}

#[test]
fn ticket_keys_for_the_longest_nonce() {
    let mut s = resumable::<Aes128GcmSha256>();
    assert_eq!(s.read_state().derive_psk_for_ticket(&[5u8; 255]).unwrap().len(), 32);
    assert_eq!(s.read_state().derive_psk_for_ticket(&[]).unwrap().len(), 32);
    assert_eq!(
        s.read_state().derive_psk_for_ticket(&[5u8; 256]),
        Err(TlsError::InternalError)
    );
}

#[test]
fn fresh_schedule_refuses() {
    let mut s = KeySchedule::<Aes128GcmSha256>::new();
    assert_eq!(s.create_client_finished().err(), Some(TlsError::InternalError));
    let t = transcript(&[]);
    assert_eq!(s.write_state().create_psk_binder(&t).err(), Some(TlsError::InternalError));
    let finished = Finished { verify: vec![0u8; 32], hash: Some(vec![0u8; 32]) };
    assert_eq!(
        s.read_state().verify_server_finished(&finished),
        Err(TlsError::InternalError)
    );
    assert!(!s.read_state().has_resumption_secret());
    assert_eq!(s.read_state().derive_psk_for_ticket(&[1]), Err(TlsError::InternalError));
    assert_eq!(s.derive_resumption_master_secret(&t), Err(TlsError::InternalError));
    assert!(!s.read_state().has_resumption_secret());
    assert_eq!(s.write_state().get_key().unwrap().to_vec(), vec![0u8; 16]);
    assert_eq!(s.read_state().get_nonce().unwrap(), vec![0u8; 12]);
}

#[test]
fn counters_go_into_the_nonces() {
    let mut s = in_handshake::<Aes128GcmSha256>();
    s.write_state().increment_counter();
    assert_eq!(s.write_state().get_nonce().unwrap(), hex("a9616a15981589f22f3d6f5c"));
    assert_eq!(s.read_state().get_nonce().unwrap(), hex("9fd59485fb3e428d3ef76e6f"));
    s.read_state().increment_counter();
    s.read_state().increment_counter();
    assert_eq!(s.read_state().get_nonce().unwrap(), hex("9fd59485fb3e428d3ef76e6d"));
}

#[test]
fn rekeying_starts_the_counters_over() {
    let mut s = in_handshake::<Aes128GcmSha256>();
    s.write_state().increment_counter();
    s.read_state().increment_counter();
    s.transcript_hash().update(SERVER_FINISHED);
    s.initialize_master_secret().unwrap();
    assert_eq!(s.write_state().get_nonce().unwrap(), hex("82f1c766ea387d12c4e32c9c"));
    assert_eq!(s.read_state().get_nonce().unwrap(), hex("4fadbed99adaf8f2ff020e3c"));
}

#[test]
fn nonces_of_records() {
    let iv = [0xffu8; 12];
    let nonce = |counter: u64| KeySchedule::<Aes128GcmSha256>::get_nonce(counter, &iv);
    assert_eq!(nonce(0), vec![0xffu8; 12]);
    assert_eq!(nonce(1), hex("fffffffffffffffffffffffe"));
    assert_eq!(nonce(0x0102030405060708), hex("fffffffffefdfcfbfaf9f8f7"));
    assert_eq!(nonce(u64::MAX), hex("ffffffff0000000000000000"));
    assert_ne!(nonce(255), nonce(256));
}

#[test]
fn padding_goes_in_front() {
    type Schedule = KeySchedule<Aes128GcmSha256>;
    assert_eq!(Schedule::pad(&[1, 2, 3], 5), vec![0, 0, 1, 2, 3]);
    assert_eq!(Schedule::pad(&[1, 2, 3], 3), vec![1, 2, 3]);
    assert_eq!(Schedule::pad(&[], 2), vec![0, 0]);
}

#[test]
fn steps_keep_transcript_binder_and_resumption_secret() {
    let mut s = resumable::<Aes128GcmSha256>();
    let psk = s.read_state().derive_psk_for_ticket(&[1]).unwrap();
    let t = transcript(&[b"hello"]);
    let before = s.write_state().create_psk_binder(&t).unwrap().verify;
    let digest = s.transcript_hash().finalize();
    s.initialize_handshake_secret(&[1, 2, 3]).unwrap();
    assert_eq!(s.read_state().derive_psk_for_ticket(&[1]).unwrap(), psk);
    assert_eq!(s.write_state().create_psk_binder(&t).unwrap().verify, before);
    assert_eq!(s.transcript_hash().finalize(), digest);
    assert_eq!(s.read_state().transcript_hash().finalize(), digest);
}

#[test]
fn transcripts_can_be_replaced() {
    let mut s = in_handshake::<Aes128GcmSha256>();
    let whole = s.create_client_finished().unwrap().verify;
    let kept = s.transcript_hash().clone();
    s.transcript_hash().update(b"more");
    assert_ne!(s.create_client_finished().unwrap().verify, whole);
    s.replace_transcript_hash(kept);
    assert_eq!(s.create_client_finished().unwrap().verify, whole);
}

#[test]
fn transcript_is_a_digest_of_all_messages() {
    let t = transcript::<Aes128GcmSha256>(&[b"a", b"b", b"c"]);
    let abc = hex("ba7816bf8f01cfea414140de5dae2223b00361a396177a9cb410ff61f20015ad");
    assert_eq!(t.finalize(), abc);
    assert_eq!(t.finalize(), abc);
    let t = transcript::<Aes256GcmSha384>(&[b"abc"]);
    assert_eq!(
        t.finalize(),
        hex("cb00753f45a35e8bb5a03d699ac65007272c32ab0eded1631a8b605a43ff5bed8086072ba1e7cc2358baeca134c825a7")
    );
}

#[test]
fn primitives_of_the_hashes() {
    for hash in [HashAlgorithm::Sha256, HashAlgorithm::Sha384] {
        let n = hash.output_size();
        let prk = hash.extract(b"salt", b"input");
        assert_eq!(prk.len(), n as usize);
        assert_eq!(hash.mac(b"salt", b"input").unwrap(), prk);
        assert!(hash.from_prk(&prk).is_ok());
        assert!(hash.from_prk(&prk[1..]).is_err());
        assert_eq!(hash.expand(&prk, b"info", 255 * n).unwrap().len(), 255 * n as usize);
        assert!(hash.expand(&prk, b"info", 255 * n + 1).is_err());
        let code = hash.mac(b"key", b"message").unwrap();
        assert!(hash.mac_verify(b"key", b"message", &code).unwrap().is_ok());
        assert!(hash.mac_verify(b"key", b"other", &code).unwrap().is_err());
    }
    // RFC 5869, test case 1.
    let prk = HashAlgorithm::Sha256.extract(&hex("000102030405060708090a0b0c"), &[0x0b; 22]);
    assert_eq!(prk, hex("077709362c2e32df0ddc3f0dc47bba6390b6c73bb50f9c3122ec844ad7c2b3e5"));
    let okm = HashAlgorithm::Sha256.expand(&prk, &hex("f0f1f2f3f4f5f6f7f8f9"), 42).unwrap();
    assert_eq!(
        okm,
        hex("3cb25f25faacd57a90434f64d0362f2a2d2d0a90cf1a5a4c5db02d56ecc4c5bf34007208d5b887185865")
    );
}

#[test]
fn hkdf_is_made_of_hmac() {
    for hash in [HashAlgorithm::Sha256, HashAlgorithm::Sha384] {
        let n = hash.output_size();
        let prk = hash.extract(b"salt", b"input");
        let first = hash.mac(&prk, b"info\x01").unwrap();
        let second = hash.mac(&prk, &[&first[..], b"info\x02"].concat()).unwrap();
        let third = hash.mac(&prk, &[&second[..], b"info\x03"].concat()).unwrap();
        let blocks = [first, second, third].concat();
        for len in [0, 1, n - 1, n, n + 1, 2 * n, 3 * n - 1, 3 * n] {
            assert_eq!(hash.expand(&prk, b"info", len).unwrap(), blocks[..len as usize].to_vec());
        }
    }
}

#[test]
fn labels_on_the_wire() {
    let bytes = encode_hkdf_label(54, 0x0120, b"derived", &[1, 2]).unwrap();
    assert_eq!(bytes, b"\x01\x20\x0dtls13 derived\x02\x01\x02".to_vec());
    assert_eq!(encode_hkdf_label(13, 16, b"key", &[]).unwrap().len(), 13);
    assert_eq!(encode_hkdf_label(12, 16, b"key", &[]), Err(TlsError::InternalError));
    let info = encode_ticket_label(32, &[1, 2, 3]).unwrap();
    assert_eq!(info.as_slice().to_vec(), b"\0\x20\x10tls13 resumption\x03\x01\x02\x03".to_vec());
    assert_eq!(encode_ticket_label(32, &[0u8; 255]).unwrap().len(), 275);
    assert_eq!(encode_ticket_label(32, &[0u8; 256]).err(), Some(TlsError::InternalError));
    assert_eq!(be16_bytes(0xabcd), [0xab, 0xcd]);
    let mut buffer = vec![1u8];
    assert_eq!(append(&mut buffer, 3, &[2, 3]), Ok(()));
    assert_eq!(append(&mut buffer, 3, &[4]), Err(TlsError::InternalError));
    assert_eq!(buffer, vec![1, 2, 3]);
}

#[test]
fn different_inputs_make_different_labels() {
    let base = encode_hkdf_label(100, 32, b"ext binder", &[1]).unwrap();
    assert_ne!(encode_hkdf_label(100, 32, b"res binder", &[1]).unwrap(), base);
    assert_ne!(encode_hkdf_label(100, 33, b"ext binder", &[1]).unwrap(), base);
    assert_ne!(encode_hkdf_label(100, 32, b"ext binder\x01", &[]).unwrap(), base);
}
