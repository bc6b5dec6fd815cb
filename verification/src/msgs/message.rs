use crate::error::{Error, ErrorView};
use crate::msgs::codec::{get_u24, put_bytes, put_u16, put_u24, u16_bytes, u24_bytes, u24_of};
use crate::msgs::enums::{AlertDescription, AlertLevel, ContentType, HandshakeType, ProtocolVersion};
use vstd::prelude::*;
use vstd::slice::{slice_subrange, slice_to_vec};

verus! {

/// The largest payload a plaintext record may carry.
pub const MAX_FRAGMENT_LEN: usize = 16384;

/// The largest payload a protected record may carry.
pub const MAX_CIPHERTEXT_LEN: usize = 16384 + 256;

/// The largest payload the framing layer lets through.
pub const MAX_WIRE_PAYLOAD: usize = 16384 + 2048;

/// The length of a record header: content type, version, payload length.
pub const HEADER_LEN: usize = 5;

/// The largest body a handshake message can declare in its 24-bit length.
pub const MAX_HANDSHAKE_BODY: usize = 0xff_ffff;

/// The mathematical value of a record, protected or not.
pub ghost struct RecordView {
    pub typ: ContentType,
    pub version: ProtocolVersion,
    pub payload: Seq<u8>,
}

impl RecordView {
    /// The record as it stands on the wire: content type, version, payload
    /// length, payload.
    pub open spec fn encoding(self) -> Seq<u8>
        recommends
            self.payload.len() <= 0xffff,
    {
        seq![self.typ.wire()] + u16_bytes(self.version.wire()) + u16_bytes(self.payload.len() as u16)
            + self.payload
    }
}

/// A record as it travels: its payload may be protected.
#[derive(Debug, PartialEq, Eq)]
pub struct OpaqueMessage {
    pub typ: ContentType,
    pub version: ProtocolVersion,
    pub payload: Vec<u8>,
}

impl View for OpaqueMessage {
    type V = RecordView;

    open spec fn view(&self) -> RecordView {
        RecordView { typ: self.typ, version: self.version, payload: self.payload@ }
    }
}

impl Clone for OpaqueMessage {
    fn clone(&self) -> (r: Self)
        ensures
            r@ == self@,
    {
        OpaqueMessage { typ: self.typ, version: self.version, payload: self.payload.clone() }
    }
}

impl OpaqueMessage {
    /// The bytes of the record on the wire.
    pub fn encode(self) -> (r: Vec<u8>)
        requires
            self@.payload.len() <= 0xffff,
        ensures
            r@ == self@.encoding(),
    {
        let mut out: Vec<u8> = Vec::new();
        out.push(self.typ.get_u8());
        put_u16(self.version.get_u16(), &mut out);
        put_u16(self.payload.len() as u16, &mut out);
        put_bytes(self.payload.as_slice(), &mut out);
        assert(out@ =~= self@.encoding());
        out
    }

    /// The same record, taken as plaintext.
    pub fn into_plain_message(self) -> (r: PlainMessage)
        ensures
            r@ == self@,
    {
        PlainMessage { typ: self.typ, version: self.version, payload: self.payload }
    }
}

/// A record whose payload is plaintext.
#[derive(Debug, PartialEq, Eq)]
pub struct PlainMessage {
    pub typ: ContentType,
    pub version: ProtocolVersion,
    pub payload: Vec<u8>,
}

impl View for PlainMessage {
    type V = RecordView;

    open spec fn view(&self) -> RecordView {
        RecordView { typ: self.typ, version: self.version, payload: self.payload@ }
    }
}

impl PlainMessage {
    /// The same record, to be sent without protection.
    pub fn into_unencrypted_opaque(self) -> (r: OpaqueMessage)
        ensures
            r@ == self@,
    {
        OpaqueMessage { typ: self.typ, version: self.version, payload: self.payload }
    }

    /// The same record over a borrowed payload.
    pub fn borrow<'a>(&'a self) -> (r: BorrowedPlainMessage<'a>)
        ensures
            r@ == self@,
    {
        BorrowedPlainMessage { typ: self.typ, version: self.version, payload: self.payload.as_slice() }
    }
}

/// A plaintext record over a borrowed payload.
#[derive(Clone, Copy, Debug)]
pub struct BorrowedPlainMessage<'a> {
    pub typ: ContentType,
    pub version: ProtocolVersion,
    pub payload: &'a [u8],
}

impl<'a> View for BorrowedPlainMessage<'a> {
    type V = RecordView;

    open spec fn view(&self) -> RecordView {
        RecordView { typ: self.typ, version: self.version, payload: self.payload@ }
    }
}

/// An alert: how severe, and what about.
#[derive(Clone, Copy, Debug, PartialEq, Eq, Structural)]
pub struct AlertMessagePayload {
    pub level: AlertLevel,
    pub description: AlertDescription,
}

/// A handshake message: its type and its body. The body fits the 24-bit
/// length of the handshake header.
#[derive(Debug, PartialEq, Eq)]
pub struct HandshakeMessagePayload {
    typ: HandshakeType,
    body: Vec<u8>,
}

impl HandshakeMessagePayload {
    #[verifier::type_invariant]
    spec fn body_fits(self) -> bool {
        self.body@.len() <= MAX_HANDSHAKE_BODY
    }

    /// The type of the message.
    pub closed spec fn spec_typ(&self) -> HandshakeType {
        self.typ
    }

    /// The body of the message.
    pub closed spec fn spec_body(&self) -> Seq<u8> {
        self.body@
    }

    /// A handshake message of the given type and body; `None` where the
    /// body is longer than a handshake header can declare.
    pub fn new(typ: HandshakeType, body: Vec<u8>) -> (r: Option<HandshakeMessagePayload>)
        ensures
            r is Some <==> body@.len() <= MAX_HANDSHAKE_BODY,
            r matches Some(h) ==> h.spec_typ() == typ && h.spec_body() == body@,
    {
        if body.len() <= MAX_HANDSHAKE_BODY {
            Some(HandshakeMessagePayload { typ, body })
        } else {
            None
        }
    }

    /// The type of the message.
    #[verifier::when_used_as_spec(spec_typ)]
    pub fn typ(&self) -> (r: HandshakeType)
        ensures
            r == self.spec_typ(),
    {
        self.typ
    }

    /// The body of the message.
    pub fn body(&self) -> (r: &[u8])
        ensures
            r@ == self.spec_body(),
            r@.len() <= MAX_HANDSHAKE_BODY,
    {
        proof {
            use_type_invariant(self);
        }
        self.body.as_slice()
    }
}

/// The mathematical value of a parsed record payload.
pub ghost enum MessagePayloadView {
    Alert(AlertMessagePayload),
    Handshake { typ: HandshakeType, body: Seq<u8> },
    ChangeCipherSpec,
    ApplicationData(Seq<u8>),
}

impl MessagePayloadView {
    /// The content type under which the payload travels.
    pub open spec fn content_type(self) -> ContentType {
        match self {
            MessagePayloadView::Alert(_) => ContentType::Alert,
            MessagePayloadView::Handshake { .. } => ContentType::Handshake,
            MessagePayloadView::ChangeCipherSpec => ContentType::ChangeCipherSpec,
            MessagePayloadView::ApplicationData(_) => ContentType::ApplicationData,
        }
    }

    /// The bytes of the payload.
    pub open spec fn encoding(self) -> Seq<u8> {
        match self {
            MessagePayloadView::Alert(a) => seq![a.level.wire(), a.description.wire()],
            MessagePayloadView::Handshake { typ, body } => handshake_encoding(typ, body),
            MessagePayloadView::ChangeCipherSpec => seq![1u8],
            MessagePayloadView::ApplicationData(d) => d,
        }
    }
}

/// A handshake message on the wire: type, 24-bit body length, body.
pub open spec fn handshake_encoding(typ: HandshakeType, body: Seq<u8>) -> Seq<u8>
    recommends
        body.len() <= MAX_HANDSHAKE_BODY,
{
    seq![typ.wire()] + u24_bytes(body.len() as u32) + body
}

/// A parsed record payload.
#[derive(Debug, PartialEq, Eq)]
pub enum MessagePayload {
    Alert(AlertMessagePayload),
    Handshake(HandshakeMessagePayload),
    ChangeCipherSpec,
    ApplicationData(Vec<u8>),
}

impl View for MessagePayload {
    type V = MessagePayloadView;

    open spec fn view(&self) -> MessagePayloadView {
        match self {
            MessagePayload::Alert(a) => MessagePayloadView::Alert(*a),
            MessagePayload::Handshake(h) => MessagePayloadView::Handshake {
                typ: h.spec_typ(),
                body: h.spec_body(),
            },
            MessagePayload::ChangeCipherSpec => MessagePayloadView::ChangeCipherSpec,
            MessagePayload::ApplicationData(d) => MessagePayloadView::ApplicationData(d@),
        }
    }
}

/// The mathematical value of a [`Message`].
pub ghost struct MessageView {
    pub version: ProtocolVersion,
    pub payload: MessagePayloadView,
}

impl MessageView {
    /// The plaintext record that carries the message whole.
    pub open spec fn record(self) -> RecordView {
        RecordView {
            typ: self.payload.content_type(),
            version: self.version,
            payload: self.payload.encoding(),
        }
    }
}

/// A record whose payload has been parsed.
#[derive(Debug, PartialEq, Eq)]
pub struct Message {
    pub version: ProtocolVersion,
    pub payload: MessagePayload,
}

impl View for Message {
    type V = MessageView;

    open spec fn view(&self) -> MessageView {
        MessageView { version: self.version, payload: self.payload@ }
    }
}

/// What parsing the payload of a plaintext record gives: the message, or the
/// error that names the content type that did not parse.
pub open spec fn parsed(plain: RecordView) -> Result<MessageView, ErrorView> {
    let p = plain.payload;
    let bad = Err::<MessageView, ErrorView>(ErrorView::CorruptMessagePayload(plain.typ));
    match plain.typ {
        ContentType::Alert => if p.len() == 2 {
            Ok(
                MessageView {
                    version: plain.version,
                    payload: MessagePayloadView::Alert(
                        AlertMessagePayload {
                            level: AlertLevel::of_wire(p[0]),
                            description: AlertDescription::of_wire(p[1]),
                        },
                    ),
                },
            )
        } else {
            bad
        },
        ContentType::ChangeCipherSpec => if p.len() == 1 && p[0] == 1 {
            Ok(MessageView { version: plain.version, payload: MessagePayloadView::ChangeCipherSpec })
        } else {
            bad
        },
        ContentType::ApplicationData => Ok(
            MessageView { version: plain.version, payload: MessagePayloadView::ApplicationData(p) },
        ),
        ContentType::Handshake => if p.len() >= 4 && u24_of(p[1], p[2], p[3]) == p.len() - 4 {
            Ok(
                MessageView {
                    version: plain.version,
                    payload: MessagePayloadView::Handshake {
                        typ: HandshakeType::of_wire(p[0]),
                        body: p.skip(4),
                    },
                },
            )
        } else {
            bad
        },
        _ => bad,
    }
}

impl Message {
    /// An alert of the given level and description.
    pub fn build_alert(level: AlertLevel, desc: AlertDescription) -> (r: Message)
        ensures
            r@ == (MessageView {
                version: ProtocolVersion::TLSv1_2,
                payload: MessagePayloadView::Alert(AlertMessagePayload { level, description: desc }),
            }),
    {
        Message {
            version: ProtocolVersion::TLSv1_2,
            payload: MessagePayload::Alert(AlertMessagePayload { level, description: desc }),
        }
    }

    /// True when the message is a handshake message of type `hstyp`.
    pub fn is_handshake_type(&self, hstyp: HandshakeType) -> (r: bool)
        ensures
            r == (self@.payload matches MessagePayloadView::Handshake { typ, .. } && typ == hstyp),
    {
        match &self.payload {
            MessagePayload::Handshake(h) => h.typ() == hstyp,
            _ => false,
        }
    }

    /// The content type under which the message travels.
    pub fn content_type(&self) -> (r: ContentType)
        ensures
            r == self@.payload.content_type(),
    {
        match &self.payload {
            MessagePayload::Alert(_) => ContentType::Alert,
            MessagePayload::Handshake(_) => ContentType::Handshake,
            MessagePayload::ChangeCipherSpec => ContentType::ChangeCipherSpec,
            MessagePayload::ApplicationData(_) => ContentType::ApplicationData,
        }
    }

    /// Parses the payload of a plaintext record.
    pub fn try_from(plain: PlainMessage) -> (r: Result<Message, Error>)
        ensures
            match r {
                Ok(m) => parsed(plain@) == Ok::<MessageView, ErrorView>(m@),
                Err(e) => parsed(plain@) == Err::<MessageView, ErrorView>(e@),
            },
    {
        let typ = plain.typ;
        let version = plain.version;
        let payload = plain.payload;
        match typ {
            ContentType::Alert => {
                if payload.len() == 2 {
                    let level = AlertLevel::from_u8(payload[0]);
                    let description = AlertDescription::from_u8(payload[1]);
                    Ok(
                        Message {
                            version,
                            payload: MessagePayload::Alert(AlertMessagePayload { level, description }),
                        },
                    )
                } else {
                    Err(Error::CorruptMessagePayload(typ))
                }
            },
            ContentType::ChangeCipherSpec => {
                if payload.len() == 1 && payload[0] == 1 {
                    Ok(Message { version, payload: MessagePayload::ChangeCipherSpec })
                } else {
                    Err(Error::CorruptMessagePayload(typ))
                }
            },
            ContentType::ApplicationData => Ok(
                Message { version, payload: MessagePayload::ApplicationData(payload) },
            ),
            ContentType::Handshake => {
                if payload.len() >= 4 && get_u24(payload[1], payload[2], payload[3]) as usize
                    == payload.len() - 4 {
                    let hstyp = HandshakeType::from_u8(payload[0]);
                    let body = slice_to_vec(slice_subrange(payload.as_slice(), 4, payload.len()));
                    match HandshakeMessagePayload::new(hstyp, body) {
                        Some(h) => Ok(Message { version, payload: MessagePayload::Handshake(h) }),
                        None => Err(Error::CorruptMessagePayload(typ)),
                    }
                } else {
                    Err(Error::CorruptMessagePayload(typ))
                }
            },
            _ => Err(Error::CorruptMessagePayload(typ)),
        }
    }

    /// The plaintext record that carries the message whole.
    pub fn into_plain(self) -> (r: PlainMessage)
        ensures
            r@ == self@.record(),
    {
        let typ = self.content_type();
        let version = self.version;
        let mut out: Vec<u8> = Vec::new();
        match self.payload {
            MessagePayload::Alert(a) => {
                out.push(a.level.get_u8());
                out.push(a.description.get_u8());
                assert(out@ =~= self@.payload.encoding());
            },
            MessagePayload::Handshake(h) => {
                let body = h.body();
                out.push(h.typ().get_u8());
                put_u24(body.len() as u32, &mut out);
                put_bytes(body, &mut out);
                assert(out@ =~= self@.payload.encoding());
            },
            MessagePayload::ChangeCipherSpec => {
                out.push(1u8);
                assert(out@ =~= self@.payload.encoding());
            },
            MessagePayload::ApplicationData(d) => {
                out = d;
            },
        }
        PlainMessage { typ, version, payload: out }
    }
}

} // verus!
