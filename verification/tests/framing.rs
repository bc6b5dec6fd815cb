use rustls::error::Error;
use rustls::msgs::codec::{get_u16, get_u24, put_u16, put_u24, put_u64};
use rustls::msgs::deframer::MessageDeframer;
use rustls::msgs::enums::{
    AlertDescription, AlertLevel, ContentType, HandshakeType, ProtocolVersion,
};
use rustls::msgs::fragmenter::MessageFragmenter;
use rustls::msgs::hsjoiner::HandshakeJoiner;
use rustls::msgs::message::{
    AlertMessagePayload, BorrowedPlainMessage, HandshakeMessagePayload, Message, MessagePayload,
    OpaqueMessage, PlainMessage,
};
use std::collections::VecDeque;

fn record(typ: ContentType, payload: &[u8]) -> OpaqueMessage {
    OpaqueMessage { typ, version: ProtocolVersion::TLSv1_2, payload: payload.to_vec() }
}

fn stream() -> (Vec<OpaqueMessage>, Vec<u8>) {
    let records = vec![
        record(ContentType::Handshake, &[1, 0, 0, 2, 7, 8]),
        record(ContentType::ApplicationData, b""),
        record(ContentType::Alert, &[1, 0]),
        record(ContentType::ApplicationData, &[0x5a; 300]),
        OpaqueMessage {
            typ: ContentType::ChangeCipherSpec,
            version: ProtocolVersion::Unknown(0x0399),
            payload: vec![1],
        },
    ];
    let mut bytes = Vec::new();
    for r in &records {
        bytes.extend_from_slice(&r.clone().encode());
    }
    (records, bytes)
}

fn drain(d: &mut MessageDeframer) -> Vec<OpaqueMessage> {
    let mut out = Vec::new();
    while let Some(m) = d.pop_frame() {
        out.push(m);
    }
    out
}

#[test]
fn integers_are_written_most_significant_byte_first() {
    let mut out = Vec::new();
    put_u16(0x1234, &mut out);
    put_u24(0x0a0b0c, &mut out);
    put_u64(0x0102030405060708, &mut out);
    assert_eq!(out, vec![0x12, 0x34, 0x0a, 0x0b, 0x0c, 1, 2, 3, 4, 5, 6, 7, 8]);
    assert_eq!(get_u16(0x12, 0x34), 0x1234);
    assert_eq!(get_u24(0x0a, 0x0b, 0x0c), 0x0a0b0c);
    assert_eq!(get_u24(0xff, 0xff, 0xff), 0xffffff);
}

#[test]
fn a_record_is_encoded_with_its_header() {
    let bytes = record(ContentType::Alert, &[2, 40]).encode();
    assert_eq!(bytes, vec![0x15, 3, 3, 0, 2, 2, 40]);
    let bytes = record(ContentType::ApplicationData, &[0u8; 0x0123]).encode();
    assert_eq!(bytes[..5], [0x17, 3, 3, 1, 0x23]);
    assert_eq!(bytes.len(), 5 + 0x0123);
}

#[test]
fn the_same_records_come_out_however_the_stream_is_cut() {
    let (records, bytes) = stream();
    for cut in [1usize, 2, 3, 5, 6, 7, 64, 311, bytes.len()] {
        let mut d = MessageDeframer::new();
        for piece in bytes.chunks(cut) {
            assert_eq!(d.read(piece), piece.len());
        }
        assert!(!d.is_desynced());
        assert_eq!(drain(&mut d), records);
        assert!(!d.has_pending());
    }
}

#[test]
fn records_come_out_as_soon_as_they_are_whole() {
    let (records, bytes) = stream();
    let mut d = MessageDeframer::new();
    assert!(!d.has_pending());
    d.read(&bytes[..10]);
    assert!(d.has_pending());
    assert_eq!(drain(&mut d), Vec::<OpaqueMessage>::new());
    d.read(&bytes[10..12]);
    assert_eq!(drain(&mut d), records[..1].to_vec());
    assert!(d.has_pending());
    d.read(&bytes[12..]);
    assert_eq!(drain(&mut d), records[1..].to_vec());
}

#[test]
fn an_unknown_content_type_desyncs_the_stream() {
    let mut d = MessageDeframer::new();
    d.read(&[0x15, 3, 3, 0, 2, 1, 0]);
    d.read(&[0x99, 3, 3, 0]);
    assert!(!d.is_desynced());
    d.read(&[0]);
    assert!(d.is_desynced());
    assert_eq!(drain(&mut d).len(), 1);
    d.read(&[0x15, 3, 3, 0, 2, 1, 0]);
    assert!(d.is_desynced());
    assert_eq!(drain(&mut d).len(), 0);
}

#[test]
fn the_version_is_checked_loosely_and_the_length_strictly() {
    let mut d = MessageDeframer::new();
    d.read(&[0x16, 3, 0x55, 0, 0]);
    assert!(!d.is_desynced());
    assert_eq!(drain(&mut d)[0].version, ProtocolVersion::Unknown(0x0355));
    d.read(&[0x16, 2, 0, 0, 0]);
    assert!(!d.is_desynced());
    assert_eq!(drain(&mut d)[0].version, ProtocolVersion::SSLv2);
    d.read(&[0x16, 4, 0, 0, 0]);
    assert!(d.is_desynced());

    let mut d = MessageDeframer::new();
    d.read(&[0x17, 3, 3, 0x48, 0x00]);
    assert!(!d.is_desynced());
    let mut d = MessageDeframer::new();
    d.read(&[0x17, 3, 3, 0x48, 0x01]);
    assert!(d.is_desynced());
}

#[test]
fn the_deframer_takes_no_more_than_it_has_room_for() {
    let mut d = MessageDeframer::new();
    assert_eq!(d.space(), 16384 + 2048 + 5);
    let mut header = vec![0x17, 3, 3, 0x48, 0x00];
    header.extend_from_slice(&[0u8; 100]);
    assert_eq!(d.read(&header), 105);
    assert_eq!(d.space(), 16384 + 2048 + 5 - 105);
    let rest = vec![0u8; 20000];
    assert_eq!(d.read(&rest), 16384 + 2048 - 100);
    assert_eq!(drain(&mut d).len(), 1);
    assert_eq!(d.space(), 16384 + 2048 + 5);
}

fn handshake_bytes(typ: u8, body: &[u8]) -> Vec<u8> {
    let mut out = vec![typ];
    put_u24(body.len() as u32, &mut out);
    out.extend_from_slice(body);
    out
}

fn plain(typ: ContentType, payload: &[u8]) -> PlainMessage {
    PlainMessage { typ, version: ProtocolVersion::TLSv1_2, payload: payload.to_vec() }
}

fn body_of(m: &Message) -> (HandshakeType, Vec<u8>) {
    match &m.payload {
        MessagePayload::Handshake(h) => (h.typ(), h.body().to_vec()),
        _ => panic!("not a handshake message"),
    }
}

#[test]
fn the_joiner_wants_handshake_records_only() {
    let j = HandshakeJoiner::new();
    assert!(j.want_message(&plain(ContentType::Handshake, b"")));
    assert!(!j.want_message(&plain(ContentType::Alert, b"")));
    assert!(!j.want_message(&plain(ContentType::ApplicationData, b"")));
    assert!(j.is_empty());
}

#[test]
fn a_message_spread_over_records_comes_out_whole() {
    let body: Vec<u8> = (0..=255u8).cycle().take(1000).collect();
    let bytes = handshake_bytes(2, &body);
    for cut in [1usize, 2, 3, 4, 5, 7, 100, 999, bytes.len()] {
        let mut j = HandshakeJoiner::new();
        let pieces: Vec<&[u8]> = bytes.chunks(cut).collect();
        for (i, piece) in pieces.iter().enumerate() {
            let got = j.take_message(plain(ContentType::Handshake, piece));
            if i + 1 < pieces.len() {
                assert_eq!(got, Some(0));
                assert!(!j.is_empty());
            } else {
                assert_eq!(got, Some(1));
            }
        }
        assert!(j.is_empty());
        let m = j.pop_frame().unwrap();
        assert_eq!(m.version, ProtocolVersion::TLSv1_2);
        assert_eq!(body_of(&m), (HandshakeType::ServerHello, body.clone()));
        assert!(j.pop_frame().is_none());
    }
}

#[test]
fn several_messages_in_one_record_come_out_in_order() {
    let mut bytes = handshake_bytes(11, b"cert");
    bytes.extend_from_slice(&handshake_bytes(14, b""));
    bytes.extend_from_slice(&handshake_bytes(20, b"fin")[..3]);
    let mut j = HandshakeJoiner::new();
    assert_eq!(j.take_message(plain(ContentType::Handshake, &bytes)), Some(2));
    assert!(!j.is_empty());
    assert_eq!(body_of(&j.pop_frame().unwrap()), (HandshakeType::Certificate, b"cert".to_vec()));
    assert_eq!(body_of(&j.pop_frame().unwrap()), (HandshakeType::ServerHelloDone, vec![]));
    assert!(j.pop_frame().is_none());
    assert_eq!(j.take_message(plain(ContentType::Handshake, &handshake_bytes(20, b"fin")[3..])), Some(1));
    assert_eq!(body_of(&j.pop_frame().unwrap()), (HandshakeType::Finished, b"fin".to_vec()));
    assert!(j.is_empty());
}

#[test]
fn a_body_that_is_declared_too_long_fails() {
    let mut j = HandshakeJoiner::new();
    let mut bytes = handshake_bytes(11, b"ok");
    bytes.extend_from_slice(&[1, 0x01, 0x00, 0x00]);
    assert_eq!(j.take_message(plain(ContentType::Handshake, &bytes)), None);
    assert!(j.pop_frame().is_some());
    assert_eq!(j.take_message(plain(ContentType::Handshake, b"more")), None);
    let mut j = HandshakeJoiner::new();
    assert_eq!(j.take_message(plain(ContentType::Handshake, &[1, 0x00, 0xff, 0xff])), Some(0));
}

fn fragment(f: &MessageFragmenter, typ: ContentType, n: usize) -> Vec<PlainMessage> {
    let mut out = VecDeque::new();
    let payload: Vec<u8> = (0..n).map(|i| i as u8).collect();
    f.fragment(plain(typ, &payload), &mut out);
    out.into_iter().collect()
}

#[test]
fn the_maximum_fragment_size_must_be_in_range() {
    assert!(MessageFragmenter::new(Some(31)).is_err());
    assert!(MessageFragmenter::new(Some(32)).is_ok());
    assert!(MessageFragmenter::new(Some(16384)).is_ok());
    assert!(MessageFragmenter::new(Some(16385)).is_err());
    assert!(MessageFragmenter::new(Some(0)).is_err());
    assert_eq!(MessageFragmenter::new(None).ok().unwrap().max_fragment_len(), 16384);
    assert_eq!(MessageFragmenter::new(Some(32)).ok().unwrap().max_fragment_len(), 27);
    assert_eq!(MessageFragmenter::new(Some(16384)).ok().unwrap().max_fragment_len(), 16379);
}

#[test]
fn a_record_is_cut_into_fragments_of_bounded_size() {
    let f = MessageFragmenter::new(Some(32)).ok().unwrap();
    let frags = fragment(&f, ContentType::Handshake, 60);
    assert_eq!(frags.len(), 3);
    assert_eq!(frags[0].payload.len(), 27);
    assert_eq!(frags[1].payload.len(), 27);
    assert_eq!(frags[2].payload.len(), 6);
    let mut joined = Vec::new();
    for fr in &frags {
        assert_eq!(fr.typ, ContentType::Handshake);
        assert_eq!(fr.version, ProtocolVersion::TLSv1_2);
        joined.extend_from_slice(&fr.payload);
    }
    assert_eq!(joined, (0..60).map(|i| i as u8).collect::<Vec<u8>>());
    assert_eq!(fragment(&f, ContentType::Handshake, 27).len(), 1);
    assert_eq!(fragment(&f, ContentType::Handshake, 28).len(), 2);
    assert_eq!(fragment(&f, ContentType::Handshake, 54).len(), 2);
    assert_eq!(fragment(&f, ContentType::Alert, 0).len(), 1);
}

#[test]
fn borrowed_data_is_cut_without_an_empty_fragment() {
    let f = MessageFragmenter::new(None).ok().unwrap();
    let data = vec![3u8; 16384 * 2 + 1];
    let mut out: VecDeque<BorrowedPlainMessage> = VecDeque::new();
    f.fragment_borrow(ContentType::ApplicationData, ProtocolVersion::TLSv1_2, &data, &mut out);
    assert_eq!(out.len(), 3);
    assert_eq!(out[0].payload.len(), 16384);
    assert_eq!(out[1].payload.len(), 16384);
    assert_eq!(out[2].payload.len(), 1);
    assert_eq!(out[2].typ, ContentType::ApplicationData);
    let mut out: VecDeque<BorrowedPlainMessage> = VecDeque::new();
    f.fragment_borrow(ContentType::ApplicationData, ProtocolVersion::TLSv1_2, b"", &mut out);
    assert!(out.is_empty());
}

#[test]
fn payloads_are_parsed_by_content_type() {
    let m = Message::try_from(plain(ContentType::Alert, &[2, 40])).unwrap();
    assert_eq!(
        m.payload,
        MessagePayload::Alert(AlertMessagePayload {
            level: AlertLevel::Fatal,
            description: AlertDescription::HandshakeFailure
        })
    );
    let m = Message::try_from(plain(ContentType::Alert, &[9, 200])).unwrap();
    assert_eq!(
        m.payload,
        MessagePayload::Alert(AlertMessagePayload {
            level: AlertLevel::Unknown(9),
            description: AlertDescription::Unknown(200)
        })
    );
    let m = Message::try_from(plain(ContentType::ChangeCipherSpec, &[1])).unwrap();
    assert_eq!(m.payload, MessagePayload::ChangeCipherSpec);
    let m = Message::try_from(plain(ContentType::ApplicationData, b"data")).unwrap();
    assert_eq!(m.payload, MessagePayload::ApplicationData(b"data".to_vec()));
    let m = Message::try_from(plain(ContentType::Handshake, &handshake_bytes(1, b"hi"))).unwrap();
    assert!(m.is_handshake_type(HandshakeType::ClientHello));
    assert!(!m.is_handshake_type(HandshakeType::ServerHello));
    assert_eq!(body_of(&m), (HandshakeType::ClientHello, b"hi".to_vec()));
}

#[test]
fn payloads_that_do_not_parse_name_their_content_type() {
    for (typ, payload) in [
        (ContentType::Alert, &[1u8][..]),
        (ContentType::Alert, &[1, 0, 0][..]),
        (ContentType::ChangeCipherSpec, &[2][..]),
        (ContentType::ChangeCipherSpec, &[][..]),
        (ContentType::ChangeCipherSpec, &[1, 1][..]),
        (ContentType::Handshake, &[1, 0, 0][..]),
        (ContentType::Handshake, &[1, 0, 0, 5, 1][..]),
        (ContentType::Handshake, &[1, 0, 0, 0, 1][..]),
        (ContentType::Heartbeat, &[1][..]),
        (ContentType::Unknown(0x33), &[][..]),
    ] {
        assert_eq!(Message::try_from(plain(typ, payload)), Err(Error::CorruptMessagePayload(typ)));
    }
}

#[test]
fn a_message_goes_into_one_plaintext_record() {
    let alert = Message::build_alert(AlertLevel::Warning, AlertDescription::CloseNotify);
    assert_eq!(alert.version, ProtocolVersion::TLSv1_2);
    assert_eq!(alert.content_type(), ContentType::Alert);
    assert_eq!(alert.into_plain(), plain(ContentType::Alert, &[1, 0]));
    let hs = Message {
        version: ProtocolVersion::TLSv1_3,
        payload: MessagePayload::Handshake(
            HandshakeMessagePayload::new(HandshakeType::Finished, b"abc".to_vec()).unwrap(),
        ),
    };
    let p = hs.into_plain();
    assert_eq!(p.typ, ContentType::Handshake);
    assert_eq!(p.version, ProtocolVersion::TLSv1_3);
    assert_eq!(p.payload, vec![20, 0, 0, 3, b'a', b'b', b'c']);
    let ccs = Message { version: ProtocolVersion::TLSv1_2, payload: MessagePayload::ChangeCipherSpec };
    assert_eq!(ccs.into_plain(), plain(ContentType::ChangeCipherSpec, &[1]));
    let data = Message {
        version: ProtocolVersion::TLSv1_2,
        payload: MessagePayload::ApplicationData(b"xyz".to_vec()),
    };
    let p = data.into_plain();
    assert_eq!(p, plain(ContentType::ApplicationData, b"xyz"));
    assert_eq!(Message::try_from(p).unwrap().payload, MessagePayload::ApplicationData(b"xyz".to_vec()));
    assert!(HandshakeMessagePayload::new(HandshakeType::Finished, vec![0u8; 0x100_0000]).is_none());
}

#[test]
fn wire_codes_map_both_ways() {
    assert_eq!(ContentType::from_u8(0x16), ContentType::Handshake);
    assert_eq!(ContentType::Handshake.get_u8(), 0x16);
    assert_eq!(ContentType::from_u8(0x19), ContentType::Unknown(0x19));
    assert_eq!(ContentType::Unknown(0x19).get_u8(), 0x19);
    assert_eq!(ProtocolVersion::from_u16(0x0304), ProtocolVersion::TLSv1_3);
    assert_eq!(ProtocolVersion::TLSv1_2.get_u16(), 0x0303);
    assert_eq!(HandshakeType::from_u8(0), HandshakeType::HelloRequest);
    assert_eq!(HandshakeType::KeyUpdate.get_u8(), 24);
    assert_eq!(AlertDescription::from_u8(100), AlertDescription::NoRenegotiation);
    assert_eq!(AlertDescription::BadRecordMac.get_u8(), 20);
    assert_eq!(AlertLevel::from_u8(2), AlertLevel::Fatal);
    for b in 0..=255u8 {
        assert_eq!(ContentType::from_u8(b).get_u8(), b);
        assert_eq!(HandshakeType::from_u8(b).get_u8(), b);
        assert_eq!(AlertDescription::from_u8(b).get_u8(), b);
        assert_eq!(AlertLevel::from_u8(b).get_u8(), b);
    }
}
