use rustls::cipher::{Protection, RecordCipher};
use rustls::conn::{
    CommonState, CompleteIo, ConnectionCommon, ConnectionRandoms, ConnectionSecrets, ExpectTraffic,
    HandleState, IoEvent, IoStep, PlaintextSink, Wants, WouldBlock, Writer,
};
use rustls::error::Error;
use rustls::msgs::enums::{
    AlertDescription, AlertLevel, ContentType, HandshakeType, ProtocolVersion,
};
use rustls::msgs::handshake::Random;
use rustls::msgs::message::{
    HandshakeMessagePayload, Message, MessagePayload, OpaqueMessage,
};
use rustls::suites::{
    tls_ecdhe_rsa_with_aes_128_gcm_sha256, BulkAlgorithm, SupportedCipherSuite,
};

type Conn = ConnectionCommon<()>;

fn fresh(is_client: bool) -> Conn {
    ConnectionCommon::new(CommonState::new((), None, is_client).unwrap())
}

fn randoms(we_are_client: bool) -> ConnectionRandoms {
    let mut client = [0u8; 32];
    let mut server = [0u8; 32];
    for i in 0..32 {
        client[i] = i as u8;
        server[i] = 100 + i as u8;
    }
    ConnectionRandoms::new(Random(client), Random(server), we_are_client)
}

fn secrets(we_are_client: bool) -> ConnectionSecrets {
    ConnectionSecrets::new(&randoms(we_are_client), tls_ecdhe_rsa_with_aes_128_gcm_sha256(), &[7u8; 48])
}

/// Installs the TLS 1.2 keys and ends the handshake.
fn finish_tls12(conn: &mut Conn) {
    let we_are_client = conn.common_state.is_client();
    conn.common_state.set_negotiated_version(ProtocolVersion::TLSv1_2);
    conn.common_state
        .set_suite(SupportedCipherSuite::Tls12(tls_ecdhe_rsa_with_aes_128_gcm_sha256()));
    conn.common_state.start_encryption_tls12(&secrets(we_are_client));
    conn.common_state.start_encrypting();
    conn.common_state.start_decrypting();
    conn.common_state.start_traffic();
}

fn tls13_cipher(key_byte: u8) -> RecordCipher {
    RecordCipher::new(Protection::Tls13, BulkAlgorithm::Aes128Gcm, vec![key_byte; 16], [key_byte; 12]).unwrap()
}

/// Installs TLS 1.3 keys and ends the handshake.
fn finish_tls13(conn: &mut Conn) {
    let (write, read) = if conn.common_state.is_client() { (1, 2) } else { (2, 1) };
    conn.common_state.set_negotiated_version(ProtocolVersion::TLSv1_3);
    conn.common_state.set_message_encrypter(tls13_cipher(write));
    conn.common_state.set_message_decrypter(tls13_cipher(read));
    conn.common_state.start_traffic();
}

/// Moves everything that `from` has queued into `to`, and returns the bytes.
fn pump(from: &mut Conn, to: &mut Conn) -> Vec<u8> {
    let mut all = Vec::new();
    while from.wants_write() {
        let chunk = from.common_state.sendable_tls().chunk(0).to_vec();
        let n = to.read_tls(&chunk);
        assert!(n > 0);
        all.extend_from_slice(&chunk[..n]);
        from.common_state.tls_written(n);
    }
    all
}

fn queued(conn: &Conn) -> Vec<u8> {
    let q = conn.common_state.sendable_tls();
    let mut all = Vec::new();
    for i in 0..q.chunk_count() {
        all.extend_from_slice(q.chunk(i));
    }
    all
}

fn feed(conn: &mut Conn, typ: ContentType, payload: &[u8]) {
    let rec = OpaqueMessage { typ, version: ProtocolVersion::TLSv1_2, payload: payload.to_vec() };
    let bytes = rec.encode();
    assert_eq!(conn.read_tls(&bytes), bytes.len());
}

fn read_all(conn: &mut Conn) -> Result<Vec<u8>, WouldBlock> {
    let mut buf = [0u8; 100];
    let n = conn.reader().read(&mut buf)?;
    Ok(buf[..n].to_vec())
}

fn loopback(finish: fn(&mut Conn)) {
    let mut client = fresh(true);
    let mut server = fresh(false);
    assert!(client.is_handshaking());
    finish(&mut client);
    finish(&mut server);
    assert!(!client.is_handshaking());
    let mut client_state = Some(ExpectTraffic);
    let mut server_state = Some(ExpectTraffic);

    assert_eq!(read_all(&mut server), Err(WouldBlock));
    assert_eq!(client.send_some_plaintext(b"hello"), 5);
    assert!(client.wants_write());
    pump(&mut client, &mut server);
    let io = server.process_new_packets(&mut server_state).unwrap();
    assert_eq!(io.plaintext_bytes_to_read(), 5);
    assert_eq!(io.tls_bytes_to_write(), 0);
    assert!(!io.peer_has_closed());
    assert!(!server.wants_read());
    assert_eq!(read_all(&mut server), Ok(b"hello".to_vec()));
    assert!(server.wants_read());
    assert_eq!(read_all(&mut server), Err(WouldBlock));

    assert_eq!(server.send_some_plaintext(b"world!"), 6);
    client.send_close_notify();
    server.send_close_notify();
    pump(&mut client, &mut server);
    pump(&mut server, &mut client);
    let io = client.process_new_packets(&mut client_state).unwrap();
    assert!(io.peer_has_closed());
    assert_eq!(io.plaintext_bytes_to_read(), 6);
    let io = server.process_new_packets(&mut server_state).unwrap();
    assert!(io.peer_has_closed());
    assert_eq!(io.plaintext_bytes_to_read(), 0);

    // what was received before the close is still read, then the end is reported
    let mut buf = [0u8; 4];
    assert_eq!(client.reader().read(&mut buf), Ok(4));
    assert_eq!(&buf, b"worl");
    assert_eq!(client.reader().read(&mut buf), Ok(2));
    assert_eq!(&buf[..2], b"d!");
    assert_eq!(client.reader().read(&mut buf), Ok(0));
    assert_eq!(server.reader().read(&mut buf), Ok(0));
    assert!(!client.wants_read());
    assert!(!server.wants_read());

    // writes are still permitted
    assert_eq!(server.send_some_plaintext(b"late"), 4);
    assert!(server.wants_write());
    assert!(client_state.is_some() && server_state.is_some());
}

#[test]
fn tls12_loopback_carries_data_and_close_notify() {
    loopback(finish_tls12);
    let mut conn = fresh(true);
    finish_tls12(&mut conn);
    assert_eq!(
        conn.common_state.get_suite().unwrap().suite(),
        rustls::msgs::enums::CipherSuite::TLS_ECDHE_RSA_WITH_AES_128_GCM_SHA256
    );
    assert_eq!(conn.common_state.negotiated_version(), Some(ProtocolVersion::TLSv1_2));
    assert!(!conn.common_state.is_tls13());
}

#[test]
fn tls13_loopback_carries_data_and_close_notify() {
    loopback(finish_tls13);
    let mut conn = fresh(false);
    finish_tls13(&mut conn);
    assert!(conn.common_state.is_tls13());
    assert!(conn.common_state.is_encrypting() && conn.common_state.is_decrypting());
}

#[test]
fn a_new_connection_is_handshaking_and_wants_to_read() {
    let conn = fresh(true);
    assert!(conn.is_handshaking());
    assert!(conn.wants_read());
    assert!(!conn.wants_write());
    assert!(conn.get_alpn_protocol().is_none());
    assert!(!conn.common_state.is_quic());
    assert!(!conn.common_state.is_encrypting());
    assert!(conn.common_state.get_suite().is_none());
    assert_eq!(conn.common_state.negotiated_version(), None);
    assert!(!conn.common_state.has_sent_fatal_alert());
}

#[test]
fn the_maximum_fragment_size_is_checked_when_the_connection_is_made() {
    assert_eq!(CommonState::new((), Some(31), true).err(), Some(Error::BadMaxFragmentSize));
    assert_eq!(CommonState::new((), Some(16385), false).err(), Some(Error::BadMaxFragmentSize));
    assert!(CommonState::new((), Some(32), true).is_ok());
    assert!(CommonState::new((), Some(16384), true).is_ok());
}

#[test]
fn during_the_handshake_writes_wait_for_reads() {
    let mut conn = fresh(true);
    conn.common_state.send_msg(
        Message {
            version: ProtocolVersion::TLSv1_2,
            payload: MessagePayload::Handshake(
                HandshakeMessagePayload::new(HandshakeType::ClientHello, b"hi".to_vec()).unwrap(),
            ),
        },
        false,
    );
    assert!(conn.wants_write());
    assert!(!conn.wants_read());
    assert_eq!(queued(&conn), vec![0x16, 3, 3, 0, 6, 1, 0, 0, 2, b'h', b'i']);
    conn.common_state.tls_written(11);
    assert!(conn.wants_read());
    assert!(!conn.wants_write());
}

#[test]
fn an_unprotected_message_is_fragmented() {
    let mut conn = ConnectionCommon::new(CommonState::new((), Some(32), true).unwrap());
    let body = vec![9u8; 50];
    conn.common_state.send_msg(
        Message {
            version: ProtocolVersion::TLSv1_2,
            payload: MessagePayload::Handshake(
                HandshakeMessagePayload::new(HandshakeType::ClientHello, body).unwrap(),
            ),
        },
        false,
    );
    let q = conn.common_state.sendable_tls();
    assert_eq!(q.chunk_count(), 2);
    assert_eq!(q.chunk(0).len(), 5 + 27);
    assert_eq!(q.chunk(0)[..9], [0x16, 3, 3, 0, 27, 1, 0, 0, 50]);
    assert_eq!(q.chunk(1).len(), 5 + 27);
    assert_eq!(q.chunk(1)[..5], [0x16, 3, 3, 0, 27]);
}

#[test]
fn one_middlebox_ccs_is_dropped_and_a_second_is_refused() {
    let mut conn = fresh(true);
    conn.common_state.set_negotiated_version(ProtocolVersion::TLSv1_3);
    let mut state = Some(ExpectTraffic);
    feed(&mut conn, ContentType::ChangeCipherSpec, &[1]);
    let io = conn.process_new_packets(&mut state).unwrap();
    assert_eq!(io.tls_bytes_to_write(), 0);
    assert_eq!(io.plaintext_bytes_to_read(), 0);
    assert!(state.is_some());
    assert!(conn.received_middlebox_ccs);
    feed(&mut conn, ContentType::ChangeCipherSpec, &[1]);
    let err = Error::PeerMisbehavedError("illegal middlebox CCS".to_string());
    assert_eq!(conn.process_new_packets(&mut state), Err(err.clone()));
    assert_eq!(conn.process_new_packets(&mut state), Err(err));
    assert!(!conn.wants_write());
}

#[test]
fn a_ccs_goes_to_the_state_machine_outside_a_tls13_handshake() {
    let mut conn = fresh(true);
    let mut state = Some(ExpectTraffic);
    feed(&mut conn, ContentType::ChangeCipherSpec, &[1]);
    assert_eq!(
        conn.process_new_packets(&mut state),
        Err(Error::InappropriateMessage {
            expect_types: vec![ContentType::ApplicationData],
            got_type: ContentType::ChangeCipherSpec
        })
    );
    assert!(!conn.received_middlebox_ccs);
    // the unexpected message is answered with a fatal alert
    assert_eq!(queued(&conn), vec![0x15, 3, 3, 0, 2, 2, 10]);
    assert!(conn.common_state.has_sent_fatal_alert());
    assert!(state.is_none());
}

#[test]
fn a_stream_that_lost_its_framing_is_a_corrupt_message() {
    let mut conn = fresh(true);
    let mut state = Some(ExpectTraffic);
    conn.read_tls(&[0x99, 3, 3, 0, 0]);
    assert_eq!(conn.process_new_packets(&mut state), Err(Error::CorruptMessage));
    assert_eq!(conn.process_new_packets(&mut state), Err(Error::CorruptMessage));
    assert!(state.is_some());
}

#[test]
fn a_record_that_does_not_parse_is_a_corrupt_payload() {
    let mut conn = fresh(true);
    let mut state = Some(ExpectTraffic);
    feed(&mut conn, ContentType::Alert, &[1]);
    assert_eq!(
        conn.process_new_packets(&mut state),
        Err(Error::CorruptMessagePayload(ContentType::Alert))
    );
    assert!(conn.error.is_some());
}

#[test]
fn a_handshake_body_that_is_too_long_is_answered_with_decode_error() {
    let mut conn = fresh(true);
    let mut state = Some(ExpectTraffic);
    feed(&mut conn, ContentType::Handshake, &[2, 1, 0, 0]);
    assert_eq!(
        conn.process_new_packets(&mut state),
        Err(Error::CorruptMessagePayload(ContentType::Handshake))
    );
    assert_eq!(queued(&conn), vec![0x15, 3, 3, 0, 2, 2, 50]);
}

#[test]
fn alerts_from_the_peer_are_told_apart() {
    // a fatal alert ends the connection
    let mut conn = fresh(true);
    let mut state = Some(ExpectTraffic);
    feed(&mut conn, ContentType::Alert, &[2, 40]);
    assert_eq!(
        conn.process_new_packets(&mut state),
        Err(Error::AlertReceived(AlertDescription::HandshakeFailure))
    );
    assert!(!conn.wants_write());

    // a warning is ignored in TLS 1.2
    let mut conn = fresh(true);
    feed(&mut conn, ContentType::Alert, &[1, 90]);
    feed(&mut conn, ContentType::Alert, &[1, 112]);
    assert!(conn.process_new_packets(&mut state).is_ok());
    assert!(!conn.peer_eof);

    // in TLS 1.3 only user_canceled is
    let mut conn = fresh(true);
    conn.common_state.set_negotiated_version(ProtocolVersion::TLSv1_3);
    feed(&mut conn, ContentType::Alert, &[1, 90]);
    assert!(conn.process_new_packets(&mut state).is_ok());
    feed(&mut conn, ContentType::Alert, &[1, 112]);
    assert_eq!(
        conn.process_new_packets(&mut state),
        Err(Error::AlertReceived(AlertDescription::UnrecognisedName))
    );
    assert_eq!(queued(&conn), vec![0x15, 3, 3, 0, 2, 2, 50]);

    // an unknown level is answered with illegal_parameter
    let mut conn = fresh(true);
    feed(&mut conn, ContentType::Alert, &[7, 40]);
    assert_eq!(
        conn.process_new_packets(&mut state),
        Err(Error::AlertReceived(AlertDescription::HandshakeFailure))
    );
    assert_eq!(queued(&conn), vec![0x15, 3, 3, 0, 2, 2, 47]);
}

#[test]
fn close_notify_gives_a_clean_end_of_data() {
    let mut conn = fresh(false);
    let mut state = Some(ExpectTraffic);
    assert_eq!(read_all(&mut conn), Err(WouldBlock));
    feed(&mut conn, ContentType::ApplicationData, b"last words");
    feed(&mut conn, ContentType::Alert, &[1, 0]);
    let io = conn.process_new_packets(&mut state).unwrap();
    assert!(io.peer_has_closed());
    assert_eq!(io.plaintext_bytes_to_read(), 10);
    assert!(!conn.wants_read());
    assert_eq!(read_all(&mut conn), Ok(b"last words".to_vec()));
    assert_eq!(read_all(&mut conn), Ok(vec![]));
    assert_eq!(read_all(&mut conn), Ok(vec![]));
    assert!(!conn.wants_read());
    assert_eq!(conn.send_some_plaintext(b"still writing"), 13);
    // a read into no room never blocks
    let mut none: [u8; 0] = [];
    assert_eq!(fresh(true).reader().read(&mut none), Ok(0));
}

#[test]
fn the_end_is_not_reported_while_records_wait_to_be_processed() {
    let mut conn = fresh(false);
    let mut state = Some(ExpectTraffic);
    feed(&mut conn, ContentType::Alert, &[1, 0]);
    conn.process_new_packets(&mut state).unwrap();
    conn.read_tls(&[0x17, 3, 3]);
    assert_eq!(read_all(&mut conn), Err(WouldBlock));
}

#[test]
fn before_the_handshake_is_complete_plaintext_is_buffered_up_to_the_limit() {
    let mut client = fresh(true);
    let mut server = fresh(false);
    assert_eq!(client.send_some_plaintext(&[0u8; 65_536]), 65_536);
    assert_eq!(client.send_some_plaintext(&[0u8; 16_384]), 0);
    assert!(!client.wants_write());

    finish_tls12(&mut client);
    finish_tls12(&mut server);
    assert!(client.wants_write());
    let q = client.common_state.sendable_tls();
    assert_eq!(q.chunk_count(), 4);
    for i in 0..4 {
        assert_eq!(q.chunk(i).len(), 5 + 8 + 16_384 + 16);
        assert_eq!(q.chunk(i)[..5], [0x17, 3, 3, 0x40, 0x18]);
    }
    let mut state = Some(ExpectTraffic);
    let mut total = 0;
    while client.wants_write() {
        let chunk = client.common_state.sendable_tls().chunk(0).to_vec();
        let n = server.read_tls(&chunk);
        client.common_state.tls_written(n);
        let io = server.process_new_packets(&mut state).unwrap();
        let mut buf = vec![1u8; io.plaintext_bytes_to_read()];
        assert_eq!(server.reader().read(&mut buf), Ok(buf.len()));
        assert!(buf.iter().all(|b| *b == 0));
        total += buf.len();
    }
    assert_eq!(total, 65_536);
}

#[test]
fn the_buffer_limit_can_be_changed_and_keeps_what_is_held() {
    let mut conn = fresh(true);
    conn.set_buffer_limit(Some(10));
    assert_eq!(conn.send_some_plaintext(b"0123456"), 7);
    assert_eq!(conn.send_some_plaintext(b"789abc"), 3);
    assert_eq!(conn.send_some_plaintext(b"x"), 0);
    conn.set_buffer_limit(Some(4));
    assert_eq!(conn.send_some_plaintext(b"x"), 0);
    conn.set_buffer_limit(None);
    assert_eq!(conn.send_some_plaintext(&[0u8; 100_000]), 100_000);
    finish_tls12(&mut conn);
    let q = conn.common_state.sendable_tls();
    // "0123456", "789", and 100000 bytes in 7 fragments
    assert_eq!(q.chunk_count(), 2 + 7);
    assert_eq!(q.chunk(0).len(), 5 + 8 + 7 + 16);
    assert_eq!(q.chunk(1).len(), 5 + 8 + 3 + 16);
}

#[test]
fn after_the_handshake_the_limit_applies_to_what_waits_for_the_transport() {
    let mut conn = fresh(true);
    finish_tls12(&mut conn);
    conn.set_buffer_limit(Some(100));
    assert_eq!(conn.send_some_plaintext(&[1u8; 80]), 80);
    // 109 bytes are queued now, which is over the limit
    assert_eq!(conn.send_some_plaintext(&[1u8; 80]), 0);
    conn.common_state.tls_written(109);
    assert_eq!(conn.send_some_plaintext(&[1u8; 200]), 100);
    assert_eq!(conn.send_some_plaintext(b""), 0);
}

#[test]
fn an_empty_write_gives_no_record() {
    let mut conn = fresh(true);
    finish_tls13(&mut conn);
    assert_eq!(conn.send_some_plaintext(b""), 0);
    assert!(!conn.wants_write());
    assert_eq!(conn.send_some_plaintext(b"x"), 1);
    assert_eq!(conn.common_state.sendable_tls().chunk_count(), 1);
    assert_eq!(conn.common_state.sendable_tls().chunk(0).len(), 5 + 1 + 1 + 16);
}

#[test]
fn early_plaintext_needs_early_traffic_and_keys() {
    let mut conn = fresh(true);
    assert_eq!(conn.send_early_plaintext(b"early"), 0);
    conn.common_state.set_early_traffic(true);
    assert_eq!(conn.send_early_plaintext(b"early"), 0);
    conn.common_state.set_message_encrypter(tls13_cipher(1));
    assert_eq!(conn.send_early_plaintext(b""), 0);
    assert!(!conn.wants_write());
    assert_eq!(conn.send_early_plaintext(b"early"), 5);
    assert!(conn.wants_write());
    assert!(conn.is_handshaking());
}

#[test]
fn a_key_change_with_a_pending_fragment_is_refused() {
    let mut conn = fresh(true);
    let mut state = Some(Collect { seen: vec![], finish: false });
    // a whole message followed by the start of another
    feed(&mut conn, ContentType::Handshake, &[2, 0, 0, 1, 9, 11, 0]);
    conn.process_new_packets(&mut state).unwrap();
    assert_eq!(state.as_ref().unwrap().seen.len(), 1);
    assert_eq!(
        conn.common_state.check_aligned_handshake(),
        Err(Error::PeerMisbehavedError(
            "key epoch or handshake flight with pending fragment".to_string()
        ))
    );
    assert_eq!(queued(&conn), vec![0x15, 3, 3, 0, 2, 2, 10]);
    assert!(conn.common_state.has_sent_fatal_alert());

    let mut conn = fresh(true);
    feed(&mut conn, ContentType::Handshake, &[2, 0, 0, 1, 9]);
    conn.process_new_packets(&mut state).unwrap();
    assert_eq!(conn.common_state.check_aligned_handshake(), Ok(()));
    assert!(!conn.wants_write());
}

fn hello_request() -> Message {
    Message {
        version: ProtocolVersion::TLSv1_2,
        payload: MessagePayload::Handshake(
            HandshakeMessagePayload::new(HandshakeType::HelloRequest, vec![]).unwrap(),
        ),
    }
}

fn client_hello() -> Message {
    Message {
        version: ProtocolVersion::TLSv1_2,
        payload: MessagePayload::Handshake(
            HandshakeMessagePayload::new(HandshakeType::ClientHello, vec![3, 3]).unwrap(),
        ),
    }
}

#[test]
fn renegotiation_is_refused_with_a_warning() {
    // a HelloRequest to a client
    let mut client = fresh(true);
    let mut server = fresh(false);
    finish_tls12(&mut client);
    finish_tls12(&mut server);
    let mut state = Some(ExpectTraffic);
    assert_eq!(client.common_state.process_main_protocol(hello_request(), &mut state), Ok(()));
    assert!(state.is_some());
    assert!(!client.common_state.has_sent_fatal_alert());
    assert!(!client.is_handshaking());
    pump(&mut client, &mut server);
    // the peer sees a warning no_renegotiation alert, which it ignores
    assert!(server.process_new_packets(&mut state).is_ok());
    assert!(!server.peer_eof);

    // a ClientHello to a server
    assert_eq!(server.common_state.process_main_protocol(client_hello(), &mut state), Ok(()));
    let record = queued(&server);
    assert_eq!(record[..5], [0x15, 3, 3, 0, 8 + 2 + 16]);
    assert!(state.is_some());

    // the other way round the message goes to the state machine
    let got = client.common_state.process_main_protocol(client_hello(), &mut state);
    assert_eq!(
        got,
        Err(Error::InappropriateMessage {
            expect_types: vec![ContentType::ApplicationData],
            got_type: ContentType::Handshake
        })
    );
    assert!(state.is_none());
}

#[test]
fn renegotiation_requests_are_not_special_in_tls13_or_during_the_handshake() {
    let mut conn = fresh(true);
    finish_tls13(&mut conn);
    let mut state = Some(ExpectTraffic);
    assert!(conn.common_state.process_main_protocol(hello_request(), &mut state).is_err());
    let mut conn = fresh(true);
    let mut state = Some(ExpectTraffic);
    assert!(conn.common_state.process_main_protocol(hello_request(), &mut state).is_err());
}

/// A handshake state for the tests: it collects the handshake messages it
/// is given, and on a ServerHello it checks for a downgrade and, when told
/// to, installs keys and ends the handshake.
struct Collect {
    seen: Vec<(HandshakeType, Vec<u8>)>,
    finish: bool,
}

impl HandleState<()> for Collect {
    fn handle(mut self, common: &mut CommonState<()>, message: Message) -> Result<Self, Error> {
        match &message.payload {
            MessagePayload::Handshake(h) => {
                let body = h.body().to_vec();
                if h.typ() == HandshakeType::ServerHello && body.len() >= 34 {
                    let mut server = [0u8; 32];
                    server.copy_from_slice(&body[2..34]);
                    let mut randoms =
                        ConnectionRandoms::new(Random([0u8; 32]), Random(server), true);
                    common.reject_downgrade(&mut randoms, true)?;
                }
                if h.typ() == HandshakeType::ServerHello && self.finish {
                    common.check_aligned_handshake()?;
                    common.set_negotiated_version(ProtocolVersion::TLSv1_2);
                    common.start_encryption_tls12(&secrets(true));
                    common.start_encrypting();
                    common.start_decrypting();
                    common.start_traffic();
                }
                self.seen.push((h.typ(), body));
                Ok(self)
            }
            MessagePayload::ApplicationData(d) => {
                common.take_received_plaintext(d.clone());
                Ok(self)
            }
            _ => Err(Error::InappropriateMessage {
                expect_types: vec![ContentType::Handshake],
                got_type: message.content_type(),
            }),
        }
    }
}

fn server_hello(random_tail: [u8; 8]) -> Vec<u8> {
    let mut body = vec![3, 3];
    body.extend_from_slice(&[0xaa; 24]);
    body.extend_from_slice(&random_tail);
    body.extend_from_slice(&[0, 0xc0, 0x2f, 0]);
    let mut msg = vec![2, 0, 0, body.len() as u8];
    msg.extend_from_slice(&body);
    msg
}

#[test]
fn a_downgrade_is_detected_and_the_error_is_kept() {
    let mut conn = fresh(true);
    let mut state = Some(Collect { seen: vec![], finish: false });
    feed(
        &mut conn,
        ContentType::Handshake,
        &server_hello([0x44, 0x4f, 0x57, 0x4e, 0x47, 0x52, 0x44, 0x01]),
    );
    let err = Error::PeerMisbehavedError("downgrade".to_string());
    assert_eq!(conn.process_new_packets(&mut state), Err(err.clone()));
    assert_eq!(conn.process_new_packets(&mut state), Err(err.clone()));
    assert!(conn.wants_write());
    assert_eq!(queued(&conn), vec![0x15, 3, 3, 0, 2, 2, 47]);
    // nothing more is processed
    feed(&mut conn, ContentType::Alert, &[1, 0]);
    assert_eq!(conn.process_new_packets(&mut state), Err(err));
    assert!(!conn.peer_eof);
}

#[test]
fn a_server_hello_without_the_sentinel_is_accepted() {
    let mut conn = fresh(true);
    let mut state = Some(Collect { seen: vec![], finish: false });
    feed(
        &mut conn,
        ContentType::Handshake,
        &server_hello([0x44, 0x4f, 0x57, 0x4e, 0x47, 0x52, 0x44, 0x00]),
    );
    assert!(conn.process_new_packets(&mut state).is_ok());
    assert_eq!(state.unwrap().seen.len(), 1);
    assert!(!conn.wants_write());
}

#[test]
fn the_downgrade_marker_is_written_and_read() {
    let mut server = randoms(false);
    let mut client = randoms(true);
    assert!(!client.has_tls12_downgrade_marker());
    server.set_tls12_downgrade_marker();
    assert_eq!(server.server[24..], [0x44, 0x4f, 0x57, 0x4e, 0x47, 0x52, 0x44, 0x01]);
    assert_eq!(server.server[..24], randoms(false).server[..24]);
    client.server = server.server;
    assert!(client.has_tls12_downgrade_marker());
    client.server[31] = 0;
    assert!(!client.has_tls12_downgrade_marker());

    let mut conn = fresh(true);
    client.server = server.server;
    assert_eq!(conn.common_state.reject_downgrade(&mut client, false), Ok(()));
    assert!(!conn.wants_write());
    assert_eq!(
        conn.common_state.reject_downgrade(&mut client, true),
        Err(Error::PeerMisbehavedError("downgrade".to_string()))
    );
    assert!(conn.wants_write());
}

#[test]
fn a_server_hello_spread_over_three_records_completes_the_handshake() {
    let mut conn = fresh(true);
    let mut state = Some(Collect { seen: vec![], finish: true });
    let hello = server_hello([1, 2, 3, 4, 5, 6, 7, 8]);
    feed(&mut conn, ContentType::Handshake, &hello[..5]);
    feed(&mut conn, ContentType::Handshake, &hello[5..10]);
    assert!(conn.process_new_packets(&mut state).is_ok());
    assert!(conn.is_handshaking());
    assert_eq!(state.as_ref().unwrap().seen.len(), 0);
    feed(&mut conn, ContentType::Handshake, &hello[10..]);
    assert!(conn.process_new_packets(&mut state).is_ok());
    assert!(!conn.is_handshaking());
    let seen = &state.as_ref().unwrap().seen;
    assert_eq!(seen.len(), 1);
    assert_eq!(seen[0].0, HandshakeType::ServerHello);
    assert_eq!(seen[0].1, hello[4..].to_vec());
    assert_eq!(conn.send_some_plaintext(b"application data"), 16);
    assert!(conn.wants_write());
}

#[test]
fn a_record_that_does_not_open_is_answered_with_bad_record_mac() {
    let mut client = fresh(true);
    let mut server = fresh(false);
    finish_tls12(&mut client);
    finish_tls12(&mut server);
    let mut state = Some(ExpectTraffic);
    client.send_some_plaintext(b"hello");
    let mut record = queued(&client);
    let last = record.len() - 1;
    record[last] ^= 0x80;
    server.read_tls(&record);
    assert_eq!(server.process_new_packets(&mut state), Err(Error::DecryptError));
    let alert = queued(&server);
    assert_eq!(alert[..5], [0x15, 3, 3, 0, 8 + 2 + 16]);
    assert!(server.common_state.has_sent_fatal_alert());
    // the alert is protected: the client opens it and sees bad_record_mac
    client.common_state.tls_written(record.len());
    pump(&mut server, &mut client);
    assert_eq!(
        client.process_new_packets(&mut state),
        Err(Error::AlertReceived(AlertDescription::BadRecordMac))
    );
}

#[test]
fn an_oversized_record_is_answered_with_record_overflow() {
    let mut client = fresh(true);
    let mut server = fresh(false);
    finish_tls12(&mut client);
    finish_tls12(&mut server);
    let mut state = Some(ExpectTraffic);
    feed(&mut server, ContentType::ApplicationData, &vec![0u8; 16384 + 257]);
    assert_eq!(server.process_new_packets(&mut state), Err(Error::PeerSentOversizedRecord));
    pump(&mut server, &mut client);
    assert_eq!(
        client.process_new_packets(&mut state),
        Err(Error::AlertReceived(AlertDescription::RecordOverflow))
    );
}

#[test]
fn the_traffic_state_takes_application_data_only() {
    let mut common = CommonState::new((), None, true).unwrap();
    let data = Message {
        version: ProtocolVersion::TLSv1_2,
        payload: MessagePayload::ApplicationData(b"abc".to_vec()),
    };
    assert!(ExpectTraffic.handle(&mut common, data).is_ok());
    let alert = Message::build_alert(AlertLevel::Warning, AlertDescription::UserCanceled);
    assert_eq!(
        ExpectTraffic.handle(&mut common, alert).err(),
        Some(Error::InappropriateMessage {
            expect_types: vec![ContentType::ApplicationData],
            got_type: ContentType::Alert
        })
    );
    let mut conn = ConnectionCommon::new(common);
    assert_eq!(read_all(&mut conn), Ok(b"abc".to_vec()));
}

#[test]
fn the_outcome_of_a_state_is_taken_in() {
    let mut common = CommonState::new((), None, true).unwrap();
    let mut state: Option<ExpectTraffic> = None;
    assert_eq!(common.handled(Ok(ExpectTraffic), &mut state), Ok(()));
    assert!(state.is_some());
    let mut state: Option<ExpectTraffic> = None;
    assert_eq!(common.handled(Err(Error::DecryptError), &mut state), Err(Error::DecryptError));
    assert!(state.is_none());
    assert!(!common.has_sent_fatal_alert());
    let e = Error::InappropriateHandshakeMessage {
        expect_types: vec![HandshakeType::ServerHello],
        got_type: HandshakeType::Finished,
    };
    assert_eq!(common.handled(Err(e.clone()), &mut state), Err(e));
    assert!(common.has_sent_fatal_alert());
    assert_eq!(common.sendable_tls().chunk(0), &[0x15, 3, 3, 0, 2, 2, 10]);
}

#[test]
fn a_writer_hands_plaintext_to_the_connection() {
    let mut conn = fresh(true);
    {
        let mut w = Writer::new(&mut conn);
        assert_eq!(w.write(b"abc"), Ok(3));
        assert_eq!(w.write_vectored(&[b"de", b"", b"fgh"]), Ok(5));
        assert_eq!(w.flush(), Ok(()));
    }
    assert_eq!(PlaintextSink::write(&mut conn, b"i"), Ok(1));
    finish_tls13(&mut conn);
    assert_eq!(conn.common_state.sendable_tls().chunk_count(), 4);
    let mut w = Writer::new(&mut conn);
    assert_eq!(w.write(b"jk"), Ok(2));
    assert_eq!(conn.common_state.sendable_tls().chunk_count(), 5);
}

#[test]
fn the_negotiated_alpn_protocol_is_reported() {
    let mut conn = fresh(true);
    conn.common_state.set_alpn_protocol(Some(b"h2".to_vec()));
    assert_eq!(conn.get_alpn_protocol(), Some(&b"h2"[..]));
    conn.common_state.set_alpn_protocol(None);
    assert_eq!(conn.get_alpn_protocol(), None);
}

#[test]
fn an_illegal_parameter_is_answered_with_a_fatal_alert() {
    let mut conn = fresh(true);
    let e = conn.common_state.illegal_param("bad thing");
    assert_eq!(e, Error::PeerMisbehavedError("bad thing".to_string()));
    assert_eq!(queued(&conn), vec![0x15, 3, 3, 0, 2, 2, 47]);
    conn.send_close_notify();
    assert_eq!(queued(&conn)[7..], [0x15, 3, 3, 0, 2, 1, 0]);
}

fn wants(write: bool, read: bool, handshaking: bool) -> Wants {
    Wants { write, read, handshaking }
}

#[test]
fn completing_io_writes_first_and_finishes_when_something_was_written() {
    let mut io = CompleteIo::new(false);
    assert_eq!(io.next(IoEvent::Begin, wants(true, true, false)), IoStep::Write);
    assert_eq!(io.next(IoEvent::Wrote(10), wants(true, true, false)), IoStep::Write);
    assert_eq!(io.next(IoEvent::Wrote(5), wants(false, true, false)), IoStep::Done);
    assert_eq!((io.rdlen, io.wrlen), (0, 15));
}

#[test]
fn completing_io_reads_once_when_nothing_is_to_be_written() {
    let mut io = CompleteIo::new(false);
    assert_eq!(io.next(IoEvent::Begin, wants(false, true, false)), IoStep::Read);
    assert_eq!(io.next(IoEvent::Read(100), wants(false, false, false)), IoStep::Process);
    assert_eq!(io.next(IoEvent::Processed, wants(false, false, false)), IoStep::Done);
    assert_eq!((io.rdlen, io.wrlen), (100, 0));
    let mut io = CompleteIo::new(false);
    assert_eq!(io.next(IoEvent::Begin, wants(false, false, false)), IoStep::Process);
    assert_eq!(io.next(IoEvent::Processed, wants(true, false, false)), IoStep::Done);
}

#[test]
fn completing_io_runs_until_the_handshake_is_complete() {
    let mut io = CompleteIo::new(true);
    assert_eq!(io.next(IoEvent::Begin, wants(true, false, true)), IoStep::Write);
    assert_eq!(io.next(IoEvent::Wrote(200), wants(false, true, true)), IoStep::Read);
    assert_eq!(io.next(IoEvent::Read(1000), wants(false, false, true)), IoStep::Process);
    assert_eq!(io.next(IoEvent::Processed, wants(true, false, true)), IoStep::Write);
    assert_eq!(io.next(IoEvent::Wrote(50), wants(false, true, true)), IoStep::Read);
    assert_eq!(io.next(IoEvent::Read(30), wants(false, false, true)), IoStep::Process);
    assert_eq!(io.next(IoEvent::Processed, wants(false, true, false)), IoStep::Done);
    assert_eq!((io.rdlen, io.wrlen), (1030, 250));
}

#[test]
fn completing_io_fails_when_the_transport_ends_during_the_handshake() {
    let mut io = CompleteIo::new(true);
    assert_eq!(io.next(IoEvent::Begin, wants(false, true, true)), IoStep::Read);
    assert_eq!(io.next(IoEvent::Read(0), wants(false, true, true)), IoStep::Process);
    assert!(io.eof);
    assert_eq!(io.next(IoEvent::Processed, wants(false, true, true)), IoStep::UnexpectedEof);
}

#[test]
fn completing_io_tries_a_last_write_when_processing_fails() {
    let mut io = CompleteIo::new(true);
    assert_eq!(io.next(IoEvent::Begin, wants(false, true, true)), IoStep::Read);
    assert_eq!(io.next(IoEvent::Read(7), wants(false, true, true)), IoStep::Process);
    assert_eq!(io.next(IoEvent::Failed, wants(true, false, true)), IoStep::LastWrite);
    assert_eq!(io.next(IoEvent::LastWritten, wants(false, false, true)), IoStep::InvalidData);
    assert_eq!(io.rdlen, 7);
    let mut io = CompleteIo::new(false);
    io.next(IoEvent::Wrote(usize::MAX), wants(true, false, false));
    io.next(IoEvent::Wrote(5), wants(true, false, false));
    assert_eq!(io.wrlen, usize::MAX);
    let conn = fresh(true);
    assert_eq!(conn.wants(), wants(false, true, true));
}

#[test]
fn keying_material_is_exported_once_the_handshake_is_complete() {
    let mut conn = fresh(true);
    let s = secrets(true);
    let mut out = [0u8; 40];
    assert_eq!(
        conn.export_keying_material(Some(&s), &mut out, b"EXPORTER-test", None),
        Err(Error::HandshakeNotComplete)
    );
    assert_eq!(out, [0u8; 40]);
    finish_tls12(&mut conn);
    assert_eq!(
        conn.export_keying_material(None, &mut out, b"EXPORTER-test", None),
        Err(Error::HandshakeNotComplete)
    );
    assert_eq!(conn.export_keying_material(Some(&s), &mut out, b"EXPORTER-test", None), Ok(()));
    let mut expect = [0u8; 40];
    s.export_keying_material(&mut expect, b"EXPORTER-test", None);
    assert_eq!(out, expect);
    assert_ne!(out, [0u8; 40]);
    assert_eq!(
        conn.export_keying_material(Some(&s), &mut out, b"EXPORTER-test", Some(b"context")),
        Ok(())
    );
    assert_ne!(out, expect);
}

#[test]
fn without_a_waiting_record_no_handshake_state_is_needed() {
    let mut conn = fresh(true);
    let mut state: Option<ExpectTraffic> = None;
    let io = conn.process_new_packets(&mut state).unwrap();
    assert_eq!(io.tls_bytes_to_write(), 0);
    assert_eq!(io.plaintext_bytes_to_read(), 0);
    assert!(!io.peer_has_closed());
    assert!(state.is_none());
    // bytes of a record that is not yet whole change nothing
    conn.read_tls(&[0x17, 3, 3, 0]);
    assert!(!conn.message_deframer.has_frame());
    assert!(conn.process_new_packets(&mut state).is_ok());
    conn.read_tls(&[1, 9]);
    assert!(conn.message_deframer.has_frame());
}

#[test]
fn bytes_to_write_are_reported_exactly_when_a_write_is_wanted() {
    let mut conn = fresh(true);
    let mut state = Some(ExpectTraffic);
    let io = conn.process_new_packets(&mut state).unwrap();
    assert_eq!(io.tls_bytes_to_write() > 0, conn.wants_write());
    assert!(!conn.wants_write());
    conn.send_close_notify();
    let io = conn.process_new_packets(&mut state).unwrap();
    assert_eq!(io.tls_bytes_to_write(), 7);
    assert!(conn.wants_write());
    conn.common_state.tls_written(3);
    let io = conn.process_new_packets(&mut state).unwrap();
    assert_eq!(io.tls_bytes_to_write(), 4);
    assert!(conn.wants_write());
    conn.common_state.tls_written(4);
    let io = conn.process_new_packets(&mut state).unwrap();
    assert_eq!(io.tls_bytes_to_write(), 0);
    assert!(!conn.wants_write());
    assert_eq!(conn.common_state.sendable_tls().chunk_count(), 0);
}

#[test]
fn the_largest_fragment_lies_between_27_and_16384_bytes() {
    assert_eq!(CommonState::new((), None, true).unwrap().max_fragment_len(), 16384);
    assert_eq!(CommonState::new((), Some(32), true).unwrap().max_fragment_len(), 27);
    assert_eq!(CommonState::new((), Some(16384), false).unwrap().max_fragment_len(), 16379);
}
