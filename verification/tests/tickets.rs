use tls_keys::alert::{Alert, AlertDescription, AlertLevel};
use tls_keys::common::decrypted_buffer_info::DecryptedBufferInfo;
use tls_keys::common::decrypted_read_handler::DecryptedReadHandler;
use tls_keys::common::session_ticket::{
    SessionTicket, MAX_PSK_LEN, MAX_TICKET_LEN, MAX_TICKET_LIFETIME, MAX_TICKET_NONCE_LEN,
};
use tls_keys::config::{Aes128GcmSha256, Aes256GcmSha384, PskType, TlsCipherSuite};
use tls_keys::error::{ParseError, TlsError};
use tls_keys::extensions::NewSessionTicketExtension;
use tls_keys::handshake::new_session_ticket::NewSessionTicket;
use tls_keys::key_schedule::KeySchedule;
use tls_keys::parse_buffer::ParseBuffer;
use tls_keys::record::{ApplicationData, ServerHandshake, ServerRecord};
use tls_keys::transcript::TranscriptHash;

fn encode(nonce: &[u8], ticket: &[u8], extensions: &[u8]) -> Vec<u8> {
    let mut b = vec![0x00, 0x00, 0x1c, 0x20, 0xde, 0xad, 0xbe, 0xef];
    b.push(nonce.len() as u8);
    b.extend_from_slice(nonce);
    b.extend_from_slice(&(ticket.len() as u16).to_be_bytes());
    b.extend_from_slice(ticket);
    b.extend_from_slice(&(extensions.len() as u16).to_be_bytes());
    b.extend_from_slice(extensions);
    b
}

fn parse(bytes: &[u8]) -> Result<NewSessionTicket, TlsError> {
    NewSessionTicket::parse(&mut ParseBuffer::new(bytes))
}

const SHORT: TlsError = TlsError::ParseError(ParseError::InsufficientBytes);
const EARLY_DATA_EXTENSION: [u8; 8] = [0, 42, 0, 4, 0, 0, 0x40, 0];

#[test]
fn ticket_is_read_and_the_rest_is_left() {
    let mut bytes = encode(&[1, 2], &[3, 4, 5], &EARLY_DATA_EXTENSION);
    bytes.extend_from_slice(&[9, 9]);
    let mut buf = ParseBuffer::new(&bytes);
    let t = NewSessionTicket::parse(&mut buf).unwrap();
    assert_eq!(t.lifetime, 7200);
    assert_eq!(t.age_add, 0xdeadbeef);
    assert_eq!(t.nonce.as_slice().to_vec(), vec![1, 2]);
    assert_eq!(t.ticket.as_slice().to_vec(), vec![3, 4, 5]);
    assert_eq!(buf.as_slice().to_vec(), vec![9, 9]);
    let copy = t.clone();
    assert_eq!(copy.lifetime, t.lifetime);
    assert_eq!(copy.age_add, t.age_add);
    assert_eq!(copy.nonce, t.nonce);
    assert_eq!(copy.ticket, t.ticket);
}

#[test]
fn longest_nonce_and_ticket_are_kept() {
    let t = parse(&encode(&[7; 64], &[8; 384], &[])).unwrap();
    assert_eq!(t.nonce.as_slice().to_vec(), vec![7u8; MAX_TICKET_NONCE_LEN]);
    assert_eq!(t.ticket.as_slice().to_vec(), vec![8u8; MAX_TICKET_LEN]);
}

fn assert_empty(t: NewSessionTicket) {
    assert_eq!((t.lifetime, t.age_add), (0, 0));
    assert!(t.nonce.is_empty() && t.ticket.is_empty());
}

#[test]
fn overlong_nonce_or_ticket_gives_an_empty_ticket() {
    assert_empty(parse(&encode(&[7; 65], &[8; 10], &[])).unwrap());
    assert_empty(parse(&encode(&[7; 255], &[8; 10], &[])).unwrap());
    assert_empty(parse(&encode(&[7; 10], &[8; 385], &[])).unwrap());
    assert_empty(parse(&encode(&[7; 10], &[8; 65535], &[])).unwrap());
    let mut bytes = encode(&[7; 65], &[8; 385], &[]);
    bytes.push(5);
    let mut buf = ParseBuffer::new(&bytes);
    assert_empty(NewSessionTicket::parse(&mut buf).unwrap());
    assert_eq!(buf.remaining(), 1);
}

#[test]
fn truncated_tickets_are_refused() {
    let bytes = encode(&[1, 2], &[3, 4, 5], &EARLY_DATA_EXTENSION);
    // lifetime 0..4, age_add 4..8, nonce length 8, nonce 9..11, ticket length
    // 11..13, ticket 13..16, extensions length 16..18, extensions 18..26
    for n in 0..bytes.len() {
        let expected = match n {
            0..=8 => SHORT,
            9..=10 => TlsError::InvalidNonceLength,
            11..=12 => SHORT,
            13..=15 => TlsError::InvalidTicketLength,
            16..=17 => TlsError::InvalidExtensionsLength,
            _ => SHORT,
        };
        assert_eq!(parse(&bytes[..n]).err(), Some(expected), "{} bytes", n);
    }
}

#[test]
fn extensions_of_a_ticket() {
    let twice = [EARLY_DATA_EXTENSION, EARLY_DATA_EXTENSION].concat();
    assert_eq!(parse(&encode(&[1], &[2], &twice)).err(), Some(TlsError::DecodeError));
    // Others are passed over.
    let grease = [0x0a, 0x0a, 0, 1, 7];
    let mixed = [&grease[..], &EARLY_DATA_EXTENSION[..], &grease[..]].concat();
    assert!(parse(&encode(&[1], &[2], &mixed)).is_ok());
    // Cut short within the block.
    assert_eq!(parse(&encode(&[1], &[2], &[0, 42, 0])).err(), Some(SHORT));
    assert_eq!(parse(&encode(&[1], &[2], &[0, 42, 0, 4, 0])).err(), Some(SHORT));
    let block = [&[0u8, 8][..], &EARLY_DATA_EXTENSION[..]].concat();
    let mut buf = ParseBuffer::new(&block);
    let found = NewSessionTicketExtension::parse_vector::<1>(&mut buf).unwrap();
    assert_eq!(found.len(), 1);
    let NewSessionTicketExtension::EarlyData(data) = &found[0];
    assert_eq!(data.clone(), vec![0, 0, 0x40, 0]);
    let mut buf = ParseBuffer::new(&block);
    assert_eq!(
        NewSessionTicketExtension::parse_vector::<0>(&mut buf).err(),
        Some(TlsError::DecodeError)
    );
}

#[test]
fn parse_buffer_reads_in_order() {
    let bytes = [1, 2, 3, 4, 5, 6, 7, 8, 9];
    let mut buf = ParseBuffer::new(&bytes);
    assert_eq!(buf.read_u8(), Ok(1));
    assert_eq!(buf.read_u16(), Ok(0x0203));
    assert_eq!(buf.read_u32(), Ok(0x04050607));
    assert_eq!(buf.read_u32(), Err(ParseError::InsufficientBytes));
    assert_eq!(buf.remaining(), 2);
    assert!(buf.slice(3).is_err());
    let part = buf.slice(2).unwrap();
    assert_eq!(part.as_slice().to_vec(), vec![8, 9]);
    assert!(buf.is_empty());
    assert_eq!(buf.read_u8(), Err(ParseError::InsufficientBytes));
    assert_eq!(buf.read_u16(), Err(ParseError::InsufficientBytes));
}

#[test]
fn parse_errors_become_tls_errors() {
    assert_eq!(TlsError::from(ParseError::InsufficientBytes), SHORT);
}

#[test]
fn session_tickets_hold_a_digest() {
    let t = parse(&encode(&[1], &[2, 3], &[])).unwrap();
    let s = SessionTicket::from_ticket(t.clone(), &[4; 48]).unwrap();
    assert_eq!(s.psk.as_slice().to_vec(), vec![4u8; MAX_PSK_LEN]);
    assert_eq!(s.ticket.as_slice().to_vec(), vec![2, 3]);
    assert_eq!((s.lifetime_secs, s.age_add), (7200, 0xdeadbeef));
    let copy = s.clone();
    assert_eq!(copy.psk, s.psk);
    assert_eq!(copy.ticket, s.ticket);
    assert_eq!((copy.lifetime_secs, copy.age_add), (7200, 0xdeadbeef));
    assert!(SessionTicket::from_ticket(t, &[4; 49]).is_none());
}

/// A schedule that ran to its resumption master secret.
fn resumable<CipherSuite: TlsCipherSuite>() -> KeySchedule<CipherSuite> {
    let mut s = KeySchedule::<CipherSuite>::new();
    s.initialize_early_secret(None).unwrap();
    s.initialize_handshake_secret(&[0x42; 32]).unwrap();
    s.initialize_master_secret().unwrap();
    let mut t = TranscriptHash::new();
    t.update(b"whole handshake");
    s.derive_resumption_master_secret(&t).unwrap();
    s
}

/// A connection: what a handler works on.
struct Connection {
    info: DecryptedBufferInfo,
    is_open: bool,
    slot: Option<SessionTicket>,
}

impl Connection {
    fn new() -> Self {
        let info = DecryptedBufferInfo { offset: 1, len: 2, consumed: 3 };
        Connection { info, is_open: true, slot: None }
    }

    fn handle<CipherSuite: TlsCipherSuite>(
        &mut self,
        schedule: &mut KeySchedule<CipherSuite>,
        record: ServerRecord,
    ) -> Result<(), TlsError> {
        let mut handler = DecryptedReadHandler {
            source_buffer: 1000..2000,
            buffer_info: &mut self.info,
            is_open: &mut self.is_open,
            session_ticket_slot: Some(&mut self.slot),
        };
        handler.handle(schedule.read_state(), record)
    }

    fn assert_untouched(&self) {
        assert_eq!(self.info, DecryptedBufferInfo { offset: 1, len: 2, consumed: 3 });
        assert!(self.is_open);
        assert!(self.slot.is_none());
    }
}

fn ticket_record(nonce: &[u8], ticket: &[u8]) -> ServerRecord {
    let t = parse(&encode(nonce, ticket, &[])).unwrap();
    ServerRecord::Handshake(ServerHandshake::NewSessionTicket(t))
}

#[test]
fn application_data_is_noted() {
    let mut s = KeySchedule::<Aes128GcmSha256>::new();
    let mut c = Connection::new();
    let record = ServerRecord::ApplicationData(ApplicationData { data: 1013..1500 });
    assert_eq!(c.handle(&mut s, record), Ok(()));
    assert_eq!(c.info, DecryptedBufferInfo { offset: 13, len: 487, consumed: 0 });
    assert!(c.is_open && c.slot.is_none());
    let record = ServerRecord::ApplicationData(ApplicationData { data: 1000..1000 });
    assert_eq!(c.handle(&mut s, record), Ok(()));
    assert_eq!(c.info, DecryptedBufferInfo { offset: 0, len: 0, consumed: 0 });
}

#[test]
fn close_notify_closes() {
    let mut s = KeySchedule::<Aes128GcmSha256>::new();
    let mut c = Connection::new();
    let alert = Alert { level: AlertLevel::Warning, description: AlertDescription::CloseNotify };
    assert_eq!(c.handle(&mut s, ServerRecord::Alert(alert)), Err(TlsError::ConnectionClosed));
    assert!(!c.is_open);
    assert_eq!(c.info, DecryptedBufferInfo { offset: 1, len: 2, consumed: 3 });
}

#[test]
fn other_records_are_errors() {
    let mut s = KeySchedule::<Aes128GcmSha256>::new();
    let mut c = Connection::new();
    let alert = Alert { level: AlertLevel::Fatal, description: AlertDescription::BadRecordMac };
    assert_eq!(c.handle(&mut s, ServerRecord::Alert(alert)), Err(TlsError::InternalError));
    c.assert_untouched();
    assert_eq!(c.handle(&mut s, ServerRecord::ChangeCipherSpec), Err(TlsError::InternalError));
    c.assert_untouched();
}

#[test]
fn tickets_go_to_the_slot() {
    let mut s = resumable::<Aes128GcmSha256>();
    let mut c = Connection::new();
    assert_eq!(c.handle(&mut s, ticket_record(&[1, 2], &[3, 4, 5])), Ok(()));
    let kept = c.slot.clone().unwrap();
    assert_eq!(kept.ticket.as_slice().to_vec(), vec![3, 4, 5]);
    assert_eq!(kept.psk.as_slice().to_vec(), s.read_state().derive_psk_for_ticket(&[1, 2]).unwrap());
    assert_eq!(kept.psk.len(), 32);
    assert_eq!((kept.lifetime_secs, kept.age_add), (7200, 0xdeadbeef));
    // The latest ticket wins.
    assert_eq!(c.handle(&mut s, ticket_record(&[9], &[8])), Ok(()));
    let latest = c.slot.clone().unwrap();
    assert_eq!(latest.ticket.as_slice().to_vec(), vec![8]);
    assert_ne!(latest.psk, kept.psk);
    assert!(c.is_open);
}

#[test]
fn lifetimes_are_cut_to_seven_days() {
    assert_eq!(MAX_TICKET_LIFETIME, 604800);
    let mut s = resumable::<Aes128GcmSha256>();
    for (sent, stored) in
        [(0, 0), (604799, 604799), (604800, 604800), (604801, 604800), (u32::MAX, 604800)]
    {
        let mut t = parse(&encode(&[1], &[2], &[])).unwrap();
        t.lifetime = sent;
        let made = SessionTicket::from_ticket(t.clone(), &[4; 32]).unwrap();
        assert_eq!(made.lifetime_secs, stored);
        let mut c = Connection::new();
        let record = ServerRecord::Handshake(ServerHandshake::NewSessionTicket(t));
        assert_eq!(c.handle(&mut s, record), Ok(()));
        assert_eq!(c.slot.unwrap().lifetime_secs, stored);
    }
}

#[test]
fn a_ticket_keeps_the_lifetime_it_came_with_until_it_is_stored() {
    let mut bytes = encode(&[1], &[2], &[]);
    bytes[..4].copy_from_slice(&604801u32.to_be_bytes());
    assert_eq!(parse(&bytes).unwrap().lifetime, 604801);
}

#[test]
fn tickets_with_sha384_have_48_byte_keys() {
    let mut s = resumable::<Aes256GcmSha384>();
    let mut c = Connection::new();
    assert_eq!(c.handle(&mut s, ticket_record(&[1], &[2])), Ok(()));
    assert_eq!(c.slot.unwrap().psk.len(), 48);
}

#[test]
fn unusable_tickets_leave_the_slot() {
    let mut s = resumable::<Aes128GcmSha256>();
    for (nonce, ticket) in [
        (vec![7u8; 65], vec![8u8; 10]),
        (vec![7u8; 10], vec![8u8; 385]),
        (vec![], vec![8u8; 10]),
        (vec![7u8; 10], vec![]),
    ] {
        let mut c = Connection::new();
        assert_eq!(c.handle(&mut s, ticket_record(&nonce, &ticket)), Ok(()));
        c.assert_untouched();
        assert_eq!(c.handle(&mut s, ticket_record(&[1], &[2])), Ok(()));
        assert_eq!(c.handle(&mut s, ticket_record(&nonce, &ticket)), Ok(()));
        assert_eq!(c.slot.unwrap().ticket.as_slice().to_vec(), vec![2]);
    }
}

#[test]
fn tickets_before_the_resumption_secret_are_dropped() {
    let mut s = KeySchedule::<Aes128GcmSha256>::new();
    let mut c = Connection::new();
    assert_eq!(c.handle(&mut s, ticket_record(&[1], &[2])), Ok(()));
    c.assert_untouched();
}

#[test]
fn tickets_without_a_slot_are_dropped() {
    let mut s = resumable::<Aes128GcmSha256>();
    let mut info = DecryptedBufferInfo { offset: 0, len: 0, consumed: 0 };
    let mut is_open = true;
    let mut handler = DecryptedReadHandler {
        source_buffer: 0..0,
        buffer_info: &mut info,
        is_open: &mut is_open,
        session_ticket_slot: None,
    };
    assert_eq!(handler.handle(s.read_state(), ticket_record(&[1], &[2])), Ok(()));
    assert!(is_open);
}

/// Both ends of a connection run the same schedule; the server makes the codes
/// that the client makes or checks.
fn handshake(psk: Option<(&[u8], PskType)>) -> KeySchedule<Aes128GcmSha256> {
    let mut s = KeySchedule::<Aes128GcmSha256>::new();
    s.initialize_early_secret(psk).unwrap();
    s.transcript_hash().update(b"hellos");
    s.initialize_handshake_secret(&[0x42; 32]).unwrap();
    s.transcript_hash().update(b"server finished");
    s.initialize_master_secret().unwrap();
    s.transcript_hash().update(b"client finished");
    let whole = s.transcript_hash().clone();
    s.derive_resumption_master_secret(&whole).unwrap();
    s
}

#[test]
fn session_resumption_round_trip() {
    // First connection: the server sends a ticket, the client captures it.
    let (mut client, mut server) = (handshake(None), handshake(None));
    let mut c = Connection::new();
    assert_eq!(c.handle(&mut client, ticket_record(&[0, 1], b"identity")), Ok(()));
    let captured = c.slot.take().expect("no session ticket captured");
    assert!(!captured.ticket.is_empty(), "captured ticket is empty");
    assert!(!captured.psk.is_empty(), "captured psk is empty");
    assert_eq!(captured.psk.len(), 32, "expected 32-byte PSK for SHA-256");
    let server_psk = server.read_state().derive_psk_for_ticket(&[0, 1]).unwrap();
    assert_eq!(captured.psk.as_slice().to_vec(), server_psk);

    // Second connection: the binder of the captured key is what the server
    // expects for the ticket, and only under the label for resumption.
    let mut truncated_hello = TranscriptHash::new();
    truncated_hello.update(b"hello with identity");
    let binder = |psk: &[u8], psk_type: PskType| {
        let mut s = KeySchedule::<Aes128GcmSha256>::new();
        s.initialize_early_secret(Some((psk, psk_type))).unwrap();
        s.write_state().create_psk_binder(&truncated_hello).unwrap().verify
    };
    let offered = binder(captured.psk.as_slice(), PskType::Resumption);
    assert_eq!(offered, binder(&server_psk, PskType::Resumption));
    assert_ne!(offered, binder(&server_psk, PskType::External));

    // Both go on to the same keys, which are not those of the first connection.
    let mut resumed = handshake(Some((captured.psk.as_slice(), PskType::Resumption)));
    let mut accepted = handshake(Some((&server_psk, PskType::Resumption)));
    let key = resumed.write_state().get_key().unwrap().to_vec();
    assert_eq!(key, accepted.write_state().get_key().unwrap().to_vec());
    assert_ne!(key, client.write_state().get_key().unwrap().to_vec());
}
