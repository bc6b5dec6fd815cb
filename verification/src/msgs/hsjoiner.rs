use crate::msgs::codec::{get_u24, u24_bytes, u24_of};
use crate::msgs::enums::{ContentType, HandshakeType, ProtocolVersion};
use crate::msgs::message::{
    handshake_encoding, HandshakeMessagePayload, Message, MessagePayload, MessagePayloadView,
    MessageView, PlainMessage,
};
use std::collections::VecDeque;
use vstd::prelude::*;
use vstd::slice::{slice_subrange, slice_to_vec};

verus! {

/// The length of a handshake header: type and 24-bit body length.
pub const HANDSHAKE_HEADER_LEN: usize = 4;

/// The longest handshake body that is accepted.
pub const MAX_HANDSHAKE_SIZE: u32 = 0xffff;

/// What stands at the front of a string of handshake bytes.
pub ghost enum HandshakeFront {
    /// Too few bytes for a header, or a body that is not all there.
    Partial,
    /// A header that declares a body longer than is accepted.
    TooLong,
    /// A whole message: its type, its body, and the bytes it takes.
    Whole(HandshakeType, Seq<u8>, nat),
}

/// Looks at the front of `buf`.
pub open spec fn handshake_front(buf: Seq<u8>) -> HandshakeFront {
    if buf.len() < HANDSHAKE_HEADER_LEN {
        HandshakeFront::Partial
    } else {
        let declared = u24_of(buf[1], buf[2], buf[3]);
        if declared > MAX_HANDSHAKE_SIZE {
            HandshakeFront::TooLong
        } else if buf.len() < HANDSHAKE_HEADER_LEN + declared {
            HandshakeFront::Partial
        } else {
            HandshakeFront::Whole(
                HandshakeType::of_wire(buf[0]),
                buf.subrange(HANDSHAKE_HEADER_LEN as int, HANDSHAKE_HEADER_LEN + declared),
                (HANDSHAKE_HEADER_LEN + declared) as nat,
            )
        }
    }
}

/// The result of joining a string of handshake bytes from scratch.
pub ghost struct Joined {
    /// The whole messages found, in order.
    pub frames: Seq<MessageView>,
    /// The bytes that follow them.
    pub pending: Seq<u8>,
    /// True when those bytes begin with a header that declares too long a body.
    pub failed: bool,
}

/// Takes whole handshake messages off the front of `buf` for as long as
/// there are any; each is given the version `version`.
pub open spec fn joined(buf: Seq<u8>, version: ProtocolVersion) -> Joined
    decreases buf.len(),
{
    match handshake_front(buf) {
        HandshakeFront::Partial => Joined { frames: Seq::empty(), pending: buf, failed: false },
        HandshakeFront::TooLong => Joined { frames: Seq::empty(), pending: buf, failed: true },
        HandshakeFront::Whole(typ, body, n) => {
            let rest = joined(buf.skip(n as int), version);
            Joined {
                frames: seq![
                    MessageView { version, payload: MessagePayloadView::Handshake { typ, body } },
                ] + rest.frames,
                pending: rest.pending,
                failed: rest.failed,
            }
        },
    }
}

/// The mathematical value of a [`HandshakeJoiner`].
pub ghost struct JoinerView {
    /// The whole messages that wait to be handed out.
    pub frames: Seq<MessageView>,
    /// The bytes of a message that is not yet whole.
    pub pending: Seq<u8>,
}

impl JoinerView {
    /// A joiner that holds nothing.
    pub open spec fn empty() -> JoinerView {
        JoinerView { frames: Seq::empty(), pending: Seq::empty() }
    }

    /// The state after the payload of a handshake record of version
    /// `version` has been taken in.
    pub open spec fn absorb(self, payload: Seq<u8>, version: ProtocolVersion) -> JoinerView {
        let j = joined(self.pending + payload, version);
        JoinerView { frames: self.frames + j.frames, pending: j.pending }
    }

    /// True when taking that payload in meets a body that is too long.
    pub open spec fn fails_on(self, payload: Seq<u8>, version: ProtocolVersion) -> bool {
        joined(self.pending + payload, version).failed
    }

    /// The state after the payloads have been taken in one after the other.
    pub open spec fn absorb_all(self, payloads: Seq<Seq<u8>>, version: ProtocolVersion) -> JoinerView
        decreases payloads.len(),
    {
        if payloads.len() == 0 {
            self
        } else {
            self.absorb(payloads[0], version).absorb_all(payloads.skip(1), version)
        }
    }
}

/// Joining a byte string and then what it left pending together with more
/// bytes is joining the whole at once.
pub proof fn lemma_joined_append(x: Seq<u8>, y: Seq<u8>, version: ProtocolVersion)
    ensures
        joined(x + y, version).frames == joined(x, version).frames + joined(
            joined(x, version).pending + y,
            version,
        ).frames,
        joined(x + y, version).pending == joined(joined(x, version).pending + y, version).pending,
        joined(x + y, version).failed == joined(joined(x, version).pending + y, version).failed,
        joined(x, version).failed ==> joined(x + y, version).failed,
    decreases x.len(),
{
    match handshake_front(x) {
        HandshakeFront::Whole(typ, body, n) => {
            let xy = x + y;
            assert(xy[0] == x[0] && xy[1] == x[1] && xy[2] == x[2] && xy[3] == x[3]);
            assert(xy.subrange(HANDSHAKE_HEADER_LEN as int, n as int) =~= x.subrange(
                HANDSHAKE_HEADER_LEN as int,
                n as int,
            ));
            assert(handshake_front(xy) == HandshakeFront::Whole(typ, body, n));
            assert(xy.skip(n as int) =~= x.skip(n as int) + y);
            lemma_joined_append(x.skip(n as int), y, version);
            let rest = joined(x.skip(n as int), version);
            let m = MessageView { version, payload: MessagePayloadView::Handshake { typ, body } };
            assert(seq![m] + (rest.frames + joined(rest.pending + y, version).frames) =~= (seq![m]
                + rest.frames) + joined(rest.pending + y, version).frames);
        },
        HandshakeFront::Partial => {
            assert(joined(x, version).frames + joined(x + y, version).frames =~= joined(
                x + y,
                version,
            ).frames);
        },
        HandshakeFront::TooLong => {
            let xy = x + y;
            assert(xy[0] == x[0] && xy[1] == x[1] && xy[2] == x[2] && xy[3] == x[3]);
            assert(handshake_front(xy) == HandshakeFront::TooLong);
            assert(joined(x, version).frames + joined(x + y, version).frames =~= joined(
                x + y,
                version,
            ).frames);
        },
    }
}

/// Taking handshake bytes in as two records gives the same messages and the
/// same pending bytes as taking them in as one.
pub proof fn lemma_join_split(s: JoinerView, a: Seq<u8>, b: Seq<u8>, version: ProtocolVersion)
    ensures
        s.absorb(a, version).absorb(b, version) == s.absorb(a + b, version),
        s.absorb(a, version).fails_on(b, version) == s.fails_on(a + b, version),
{
    lemma_joined_append(s.pending + a, b, version);
    assert((s.pending + a) + b =~= s.pending + (a + b));
    let j1 = joined(s.pending + a, version);
    let j2 = joined(j1.pending + b, version);
    assert((s.frames + j1.frames) + j2.frames =~= s.frames + (j1.frames + j2.frames));
}

/// The bytes of one handshake message join to that message, with nothing
/// left pending.
pub proof fn lemma_joined_one(typ: HandshakeType, body: Seq<u8>, version: ProtocolVersion)
    requires
        typ.canonical(),
        body.len() <= MAX_HANDSHAKE_SIZE,
    ensures
        joined(handshake_encoding(typ, body), version) == (Joined {
            frames: seq![
                MessageView { version, payload: MessagePayloadView::Handshake { typ, body } },
            ],
            pending: Seq::empty(),
            failed: false,
        }),
{
    let e = handshake_encoding(typ, body);
    let n = (HANDSHAKE_HEADER_LEN + body.len()) as nat;
    let l = u24_bytes(body.len() as u32);
    assert(l.len() == 3);
    assert(e =~= seq![typ.wire(), l[0], l[1], l[2]] + body);
    assert(e.len() == n);
    assert(e[0] == typ.wire());
    assert(e[1] == u24_bytes(body.len() as u32)[0]);
    assert(e[2] == u24_bytes(body.len() as u32)[1]);
    assert(e[3] == u24_bytes(body.len() as u32)[2]);
    assert(u24_of(e[1], e[2], e[3]) == body.len());
    assert(e.subrange(HANDSHAKE_HEADER_LEN as int, n as int) =~= body);
    assert(handshake_front(e) == HandshakeFront::Whole(typ, body, n));
    assert(e.skip(n as int) =~= Seq::<u8>::empty());
    assert(handshake_front(e.skip(n as int)) is Partial);
    assert(joined(e.skip(n as int), version).frames.len() == 0);
    assert(joined(e.skip(n as int), version).pending.len() == 0);
    let m = MessageView { version, payload: MessagePayloadView::Handshake { typ, body } };
    assert(seq![m] + Seq::<MessageView>::empty() =~= seq![m]);
    assert(joined(e, version).frames =~= seq![m]);
    assert(joined(e, version).pending =~= Seq::<u8>::empty());
}

/// However the bytes of one handshake message are spread over records, an
/// empty joiner that takes the records in order ends with exactly that
/// message, its body as it was sent, and nothing pending.
pub proof fn lemma_reassembly(
    typ: HandshakeType,
    body: Seq<u8>,
    payloads: Seq<Seq<u8>>,
    version: ProtocolVersion,
)
    requires
        typ.canonical(),
        body.len() <= MAX_HANDSHAKE_SIZE,
        payloads.flatten() == handshake_encoding(typ, body),
    ensures
        JoinerView::empty().absorb_all(payloads, version) == (JoinerView {
            frames: seq![
                MessageView { version, payload: MessagePayloadView::Handshake { typ, body } },
            ],
            pending: Seq::empty(),
        }),
{
    lemma_joined_one(typ, body, version);
    lemma_join_pieces(JoinerView::empty(), payloads, version);
    let e = handshake_encoding(typ, body);
    assert(Seq::<u8>::empty() + e =~= e);
    let m = MessageView { version, payload: MessagePayloadView::Handshake { typ, body } };
    assert(Seq::<MessageView>::empty() + seq![m] =~= seq![m]);
}

/// Taking payloads in one after the other is taking in their concatenation,
/// for a joiner whose pending bytes do not begin with a whole message.
pub proof fn lemma_join_pieces(s: JoinerView, payloads: Seq<Seq<u8>>, version: ProtocolVersion)
    requires
        joined(s.pending, version).frames.len() == 0,
    ensures
        s.absorb_all(payloads, version) == s.absorb(payloads.flatten(), version),
    decreases payloads.len(),
{
    if payloads.len() == 0 {
        assert(payloads.flatten() =~= Seq::<u8>::empty());
        assert(s.pending + Seq::<u8>::empty() =~= s.pending);
        lemma_joined_rest(s.pending, version);
        assert(s.frames + Seq::<MessageView>::empty() =~= s.frames);
    } else {
        let next = s.absorb(payloads[0], version);
        lemma_joined_rest(s.pending + payloads[0], version);
        lemma_join_pieces(next, payloads.skip(1), version);
        lemma_join_split(s, payloads[0], payloads.skip(1).flatten(), version);
        assert(payloads.drop_first() == payloads.skip(1));
        assert(payloads.flatten() == payloads[0] + payloads.skip(1).flatten());
    }
}

/// What joining leaves pending does not begin with a whole message.
pub proof fn lemma_joined_rest(buf: Seq<u8>, version: ProtocolVersion)
    ensures
        joined(joined(buf, version).pending, version).frames.len() == 0,
        joined(buf, version).frames.len() == 0 ==> joined(buf, version).pending == buf,
    decreases buf.len(),
{
    match handshake_front(buf) {
        HandshakeFront::Whole(typ, body, n) => {
            lemma_joined_rest(buf.skip(n as int), version);
        },
        _ => {},
    }
}

/// Puts handshake messages together from the payloads of handshake records.
pub struct HandshakeJoiner {
    frames: VecDeque<Message>,
    buf: Vec<u8>,
}

impl View for HandshakeJoiner {
    type V = JoinerView;

    closed spec fn view(&self) -> JoinerView {
        JoinerView { frames: self.frames@.map_values(|m: Message| m@), pending: self.buf@ }
    }
}

impl HandshakeJoiner {
    /// A joiner that holds nothing.
    pub fn new() -> (r: HandshakeJoiner)
        ensures
            r@ == JoinerView::empty(),
    {
        let r = HandshakeJoiner { frames: VecDeque::new(), buf: Vec::new() };
        assert(r@.frames =~= Seq::<MessageView>::empty());
        r
    }

    /// True when the joiner wants the record: when it is a handshake record.
    pub fn want_message(&self, msg: &PlainMessage) -> (r: bool)
        ensures
            r == (msg.typ == ContentType::Handshake),
    {
        msg.typ == ContentType::Handshake
    }

    /// True when no bytes of a message that is not yet whole are held.
    pub fn is_empty(&self) -> (r: bool)
        ensures
            r == (self@.pending.len() == 0),
    {
        self.buf.len() == 0
    }

    /// Hands out the oldest message that waits, if any.
    pub fn pop_frame(&mut self) -> (r: Option<Message>)
        ensures
            final(self)@.pending == old(self)@.pending,
            match r {
                Some(m) => old(self)@.frames.len() > 0 && m@ == old(self)@.frames[0]
                    && final(self)@.frames == old(self)@.frames.skip(1),
                None => old(self)@.frames.len() == 0 && final(self)@.frames == old(self)@.frames,
            },
    {
        let r = self.frames.pop_front();
        proof {
            if r.is_some() {
                assert(self@.frames =~= old(self)@.frames.skip(1));
            } else {
                assert(self@.frames =~= old(self)@.frames);
            }
        }
        r
    }

    /// Takes in the payload of a handshake record and queues every message
    /// that is now whole. Returns how many messages that was, or `None`
    /// where a header declares a body that is too long; the messages before
    /// it are queued all the same.
    pub fn take_message(&mut self, msg: PlainMessage) -> (r: Option<usize>)
        ensures
            final(self)@ == old(self)@.absorb(msg@.payload, msg@.version),
            r is None <==> old(self)@.fails_on(msg@.payload, msg@.version),
            r matches Some(count) ==> count == joined(
                old(self)@.pending + msg@.payload,
                msg@.version,
            ).frames.len(),
    {
        let version = msg.version;
        self.buf.extend_from_slice(msg.payload.as_slice());
        let ghost whole = old(self)@.pending + msg@.payload;
        assert(self.buf@ =~= whole);
        let ghost target = joined(whole, version);
        let ghost first = old(self)@.frames;
        let total = self.buf.len();
        let mut pos: usize = 0;
        let mut bad = false;
        let mut count: usize = 0;
        assert(whole.skip(0) =~= whole);
        assert(first + Seq::<MessageView>::empty() =~= first);
        loop
            invariant_except_break
                !bad,
            invariant
                pos <= total,
                total == whole.len(),
                self.buf@ == whole,
                target == joined(whole, version),
                count <= pos,
                self.frames@.map_values(|m: Message| m@) + joined(
                    whole.skip(pos as int),
                    version,
                ).frames == first + target.frames,
                count + joined(whole.skip(pos as int), version).frames.len()
                    == target.frames.len(),
                joined(whole.skip(pos as int), version).pending == target.pending,
                joined(whole.skip(pos as int), version).failed == target.failed,
            ensures
                pos <= total,
                total == whole.len(),
                self.buf@ == whole,
                self.frames@.map_values(|m: Message| m@) == first + target.frames,
                count == target.frames.len(),
                whole.skip(pos as int) == target.pending,
                bad == target.failed,
            decreases total - pos,
        {
            let ghost rest = whole.skip(pos as int);
            let ghost done = self.frames@.map_values(|m: Message| m@);
            if total - pos < HANDSHAKE_HEADER_LEN {
                assert(handshake_front(rest) is Partial);
                assert(done + Seq::<MessageView>::empty() =~= done);
                break ;
            }
            let declared = get_u24(self.buf[pos + 1], self.buf[pos + 2], self.buf[pos + 3]);
            if declared > MAX_HANDSHAKE_SIZE {
                assert(handshake_front(rest) is TooLong);
                assert(done + Seq::<MessageView>::empty() =~= done);
                bad = true;
                break ;
            }
            let len = declared as usize;
            if total - pos < HANDSHAKE_HEADER_LEN + len {
                assert(handshake_front(rest) is Partial);
                assert(done + Seq::<MessageView>::empty() =~= done);
                break ;
            }
            let typ = HandshakeType::from_u8(self.buf[pos]);
            let body = slice_to_vec(
                slice_subrange(
                    self.buf.as_slice(),
                    pos + HANDSHAKE_HEADER_LEN,
                    pos + HANDSHAKE_HEADER_LEN + len,
                ),
            );
            let ghost b = body@;
            let h = HandshakeMessagePayload::new(typ, body);
            let m = Message { version, payload: MessagePayload::Handshake(h.unwrap()) };
            proof {
                assert(rest.subrange(HANDSHAKE_HEADER_LEN as int, HANDSHAKE_HEADER_LEN + len) =~= b);
                assert(handshake_front(rest) == HandshakeFront::Whole(
                    typ,
                    b,
                    (HANDSHAKE_HEADER_LEN + len) as nat,
                ));
                assert(rest.skip(HANDSHAKE_HEADER_LEN + len) =~= whole.skip(
                    pos + HANDSHAKE_HEADER_LEN + len,
                ));
                let after = joined(whole.skip(pos + HANDSHAKE_HEADER_LEN + len), version);
                assert(done.push(m@) + after.frames =~= done + (seq![m@] + after.frames));
            }
            self.frames.push_back(m);
            assert(self.frames@.map_values(|m: Message| m@) =~= done.push(m@));
            pos = pos + HANDSHAKE_HEADER_LEN + len;
            count = count + 1;
        }
        let tail = self.buf.split_off(pos);
        self.buf = tail;
        proof {
            assert(self.buf@ =~= target.pending);
        }
        if bad {
            None
        } else {
            Some(count)
        }
    }
}

} // verus!
