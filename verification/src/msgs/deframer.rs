use crate::msgs::codec::{get_u16, u16_bytes, u16_of};
use crate::msgs::enums::{ContentType, ProtocolVersion};
use crate::msgs::message::{OpaqueMessage, RecordView, HEADER_LEN, MAX_WIRE_PAYLOAD};
use std::collections::VecDeque;
use vstd::prelude::*;
use vstd::slice::{slice_subrange, slice_to_vec};

verus! {

/// The most bytes the deframer holds unparsed: one record of the largest
/// size the framing layer lets through, with its header.
pub const MAX_MESSAGE: usize = 16384 + 2048 + 5;

/// What stands at the front of a byte string.
pub ghost enum Front {
    /// Too few bytes to tell, or a good header whose payload is not all there.
    Partial,
    /// A header that no record can have.
    Invalid,
    /// A whole record, and the number of bytes it takes.
    Record(RecordView, nat),
}

/// True when a record header may carry this version: any named version, and
/// any other whose first byte is 3.
pub open spec fn version_accepted(v: ProtocolVersion) -> bool {
    !(v is Unknown) || v.wire() / 256 == 3
}

/// True when a record header may carry this content type.
pub open spec fn type_accepted(t: ContentType) -> bool {
    !(t is Unknown)
}

/// Looks at the front of `buf`.
pub open spec fn front(buf: Seq<u8>) -> Front {
    if buf.len() < HEADER_LEN {
        Front::Partial
    } else {
        let typ = ContentType::of_wire(buf[0]);
        let version = ProtocolVersion::of_wire(u16_of(buf[1], buf[2]));
        let len = u16_of(buf[3], buf[4]);
        if !type_accepted(typ) || !version_accepted(version) || len > MAX_WIRE_PAYLOAD {
            Front::Invalid
        } else if buf.len() < HEADER_LEN + len {
            Front::Partial
        } else {
            Front::Record(
                RecordView { typ, version, payload: buf.subrange(HEADER_LEN as int, HEADER_LEN + len) },
                (HEADER_LEN + len) as nat,
            )
        }
    }
}

/// The mathematical value of a [`MessageDeframer`], and the result of
/// deframing a byte string from scratch.
pub ghost struct DeframerView {
    /// The records taken off the stream and not yet handed out.
    pub frames: Seq<RecordView>,
    /// The bytes that follow them and do not yet make a record.
    pub pending: Seq<u8>,
    /// True once a header was met that no record can have.
    pub desynced: bool,
}

/// Takes whole records off the front of `buf` for as long as there are any.
pub open spec fn deframed(buf: Seq<u8>) -> DeframerView
    decreases buf.len(),
{
    match front(buf) {
        Front::Partial => DeframerView { frames: Seq::empty(), pending: buf, desynced: false },
        Front::Invalid => DeframerView { frames: Seq::empty(), pending: buf, desynced: true },
        Front::Record(r, n) => {
            let rest = deframed(buf.skip(n as int));
            DeframerView { frames: seq![r] + rest.frames, pending: rest.pending, desynced: rest.desynced }
        },
    }
}

impl DeframerView {
    /// How many more bytes can be taken in.
    pub open spec fn room(self) -> nat {
        if self.pending.len() >= MAX_MESSAGE {
            0
        } else {
            (MAX_MESSAGE - self.pending.len()) as nat
        }
    }

    /// The state after `data` has been taken in: the pending bytes and the
    /// new ones are deframed together.
    pub open spec fn absorb(self, data: Seq<u8>) -> DeframerView {
        let d = deframed(self.pending + data);
        DeframerView {
            frames: self.frames + d.frames,
            pending: d.pending,
            desynced: self.desynced || d.desynced,
        }
    }

    /// The state after the pieces have been taken in one after the other.
    pub open spec fn absorb_all(self, pieces: Seq<Seq<u8>>) -> DeframerView
        decreases pieces.len(),
    {
        if pieces.len() == 0 {
            self
        } else {
            self.absorb(pieces[0]).absorb_all(pieces.skip(1))
        }
    }

    /// True for a record that the deframer lets through.
    pub open spec fn admissible(r: RecordView) -> bool {
        &&& r.typ.canonical()
        &&& type_accepted(r.typ)
        &&& r.version.canonical()
        &&& version_accepted(r.version)
        &&& r.payload.len() <= MAX_WIRE_PAYLOAD
    }

    /// The bytes of the records, one after the other.
    pub open spec fn stream(records: Seq<RecordView>) -> Seq<u8>
        decreases records.len(),
    {
        if records.len() == 0 {
            Seq::empty()
        } else {
            records[0].encoding() + Self::stream(records.skip(1))
        }
    }
}

/// Deframing a byte string and then what it left pending together with more
/// bytes is deframing the whole at once.
pub proof fn lemma_deframed_append(x: Seq<u8>, y: Seq<u8>)
    ensures
        deframed(x + y).frames == deframed(x).frames + deframed(deframed(x).pending + y).frames,
        deframed(x + y).pending == deframed(deframed(x).pending + y).pending,
        deframed(x + y).desynced == deframed(deframed(x).pending + y).desynced,
        deframed(x).desynced ==> deframed(x + y).desynced,
    decreases x.len(),
{
    match front(x) {
        Front::Record(r, n) => {
            let xy = x + y;
            assert(xy[0] == x[0] && xy[1] == x[1] && xy[2] == x[2] && xy[3] == x[3] && xy[4] == x[4]);
            assert(xy.subrange(HEADER_LEN as int, n as int) =~= x.subrange(HEADER_LEN as int, n as int));
            assert(front(xy) == Front::Record(r, n));
            assert(xy.skip(n as int) =~= x.skip(n as int) + y);
            lemma_deframed_append(x.skip(n as int), y);
            let rest = deframed(x.skip(n as int));
            assert(seq![r] + (rest.frames + deframed(rest.pending + y).frames) =~= (seq![r]
                + rest.frames) + deframed(rest.pending + y).frames);
        },
        Front::Partial => {
            assert(deframed(x).frames + deframed(x + y).frames =~= deframed(x + y).frames);
        },
        Front::Invalid => {
            let xy = x + y;
            assert(xy[0] == x[0] && xy[1] == x[1] && xy[2] == x[2] && xy[3] == x[3] && xy[4] == x[4]);
            assert(front(xy) == Front::Invalid);
            assert(deframed(x).frames + deframed(x + y).frames =~= deframed(x + y).frames);
        },
    }
}

/// Taking bytes in as two pieces gives the same records, the same pending
/// bytes and the same verdict as taking them in as one.
pub proof fn lemma_absorb_split(s: DeframerView, a: Seq<u8>, b: Seq<u8>)
    ensures
        s.absorb(a).absorb(b) == s.absorb(a + b),
{
    lemma_deframed_append(s.pending + a, b);
    assert((s.pending + a) + b =~= s.pending + (a + b));
    let d1 = deframed(s.pending + a);
    let d2 = deframed(d1.pending + b);
    assert((s.frames + d1.frames) + d2.frames =~= s.frames + (d1.frames + d2.frames));
}

/// The states that a deframer can be in: what is pending does not begin with
/// a whole record, and the verdict on it is the one recorded.
pub open spec fn settled(s: DeframerView) -> bool {
    deframed(s.pending) == (DeframerView {
        frames: Seq::empty(),
        pending: s.pending,
        desynced: s.desynced,
    })
}

/// What deframing leaves behind is settled.
pub proof fn lemma_deframed_settled(buf: Seq<u8>)
    ensures
        settled(deframed(buf)),
    decreases buf.len(),
{
    match front(buf) {
        Front::Record(r, n) => {
            lemma_deframed_settled(buf.skip(n as int));
        },
        _ => {},
    }
}

/// Taking bytes in keeps a deframer settled, and taking in none changes
/// nothing.
pub proof fn lemma_absorb_settled(s: DeframerView, data: Seq<u8>)
    requires
        settled(s),
    ensures
        settled(s.absorb(data)),
        s.absorb(Seq::empty()) == s,
{
    lemma_deframed_settled(s.pending + data);
    lemma_deframed_append(s.pending, data);
    assert(s.pending + Seq::<u8>::empty() =~= s.pending);
    assert(s.frames + Seq::<RecordView>::empty() =~= s.frames);
}

/// However a byte stream is cut into pieces, taking the pieces in one after
/// the other gives the same records, the same pending bytes and the same
/// verdict as taking the stream in whole.
pub proof fn lemma_chunking_invariance(s: DeframerView, pieces: Seq<Seq<u8>>)
    requires
        settled(s),
    ensures
        s.absorb_all(pieces) == s.absorb(pieces.flatten()),
    decreases pieces.len(),
{
    if pieces.len() == 0 {
        assert(pieces.flatten() =~= Seq::<u8>::empty());
        lemma_absorb_settled(s, Seq::empty());
    } else {
        lemma_absorb_settled(s, pieces[0]);
        lemma_chunking_invariance(s.absorb(pieces[0]), pieces.skip(1));
        lemma_absorb_split(s, pieces[0], pieces.skip(1).flatten());
        assert(pieces.drop_first() == pieces.skip(1));
        assert(pieces.flatten() == pieces[0] + pieces.skip(1).flatten());
    }
}

/// The bytes of admissible records, followed by any further bytes, deframe
/// to those records followed by what the further bytes deframe to. So a
/// stream that holds N records gives exactly those N records.
pub proof fn lemma_stream_deframes(records: Seq<RecordView>, tail: Seq<u8>)
    requires
        forall|i: int| 0 <= i < records.len() ==> DeframerView::admissible(#[trigger] records[i]),
    ensures
        deframed(DeframerView::stream(records) + tail).frames == records + deframed(tail).frames,
        deframed(DeframerView::stream(records) + tail).pending == deframed(tail).pending,
        deframed(DeframerView::stream(records) + tail).desynced == deframed(tail).desynced,
    decreases records.len(),
{
    if records.len() == 0 {
        assert(DeframerView::stream(records) + tail =~= tail);
        assert(records + deframed(tail).frames =~= deframed(tail).frames);
    } else {
        let r = records[0];
        let rest = records.skip(1);
        let after = DeframerView::stream(rest) + tail;
        let all = DeframerView::stream(records) + tail;
        assert(DeframerView::admissible(r));
        assert(all =~= r.encoding() + after);
        let n = (HEADER_LEN + r.payload.len()) as nat;
        assert(all[0] == r.typ.wire());
        assert(all[1] == u16_bytes(r.version.wire())[0]);
        assert(all[2] == u16_bytes(r.version.wire())[1]);
        assert(all[3] == u16_bytes(r.payload.len() as u16)[0]);
        assert(all[4] == u16_bytes(r.payload.len() as u16)[1]);
        assert(u16_of(all[1], all[2]) == r.version.wire());
        assert(u16_of(all[3], all[4]) == r.payload.len());
        assert(all.subrange(HEADER_LEN as int, n as int) =~= r.payload);
        assert(front(all) == Front::Record(r, n));
        assert(all.skip(n as int) =~= after);
        assert forall|i: int| 0 <= i < rest.len() implies DeframerView::admissible(
            #[trigger] rest[i],
        ) by {
            assert(rest[i] == records[i + 1]);
        }
        lemma_stream_deframes(rest, tail);
        assert(seq![r] + (rest + deframed(tail).frames) =~= records + deframed(tail).frames);
    }
}

/// Turns a byte stream that arrives in pieces of any size into records.
pub struct MessageDeframer {
    frames: VecDeque<OpaqueMessage>,
    desynced: bool,
    buf: Vec<u8>,
}

impl View for MessageDeframer {
    type V = DeframerView;

    closed spec fn view(&self) -> DeframerView {
        DeframerView {
            frames: self.frames@.map_values(|m: OpaqueMessage| m@),
            pending: self.buf@,
            desynced: self.desynced,
        }
    }
}

impl MessageDeframer {
    /// A deframer that has seen no bytes.
    pub fn new() -> (r: MessageDeframer)
        ensures
            r@ == (DeframerView { frames: Seq::empty(), pending: Seq::empty(), desynced: false }),
            settled(r@),
    {
        let r = MessageDeframer { frames: VecDeque::new(), desynced: false, buf: Vec::new() };
        assert(r@.frames =~= Seq::<RecordView>::empty());
        r
    }

    /// True once the stream lost its framing.
    pub fn is_desynced(&self) -> (r: bool)
        ensures
            r == self@.desynced,
    {
        self.desynced
    }

    /// True when a record waits to be handed out, or bytes of a record that
    /// is not yet whole are held.
    pub fn has_pending(&self) -> (r: bool)
        ensures
            r == (self@.frames.len() > 0 || self@.pending.len() > 0),
    {
        self.frames.len() > 0 || self.buf.len() > 0
    }

    /// True when a record waits to be handed out.
    pub fn has_frame(&self) -> (r: bool)
        ensures
            r == (self@.frames.len() > 0),
    {
        self.frames.len() > 0
    }

    /// How many more bytes the deframer can take in.
    pub fn space(&self) -> (r: usize)
        ensures
            r == self@.room(),
    {
        if self.buf.len() >= MAX_MESSAGE {
            0
        } else {
            MAX_MESSAGE - self.buf.len()
        }
    }

    /// Hands out the oldest record that waits, if any.
    pub fn pop_frame(&mut self) -> (r: Option<OpaqueMessage>)
        ensures
            final(self)@.pending == old(self)@.pending,
            final(self)@.desynced == old(self)@.desynced,
            match r {
                Some(m) => old(self)@.frames.len() > 0 && m@ == old(self)@.frames[0]
                    && final(self)@.frames == old(self)@.frames.skip(1),
                None => old(self)@.frames.len() == 0 && final(self)@.frames == old(self)@.frames,
            },
    {
        let r = self.frames.pop_front();
        proof {
            if r.is_some() {
                assert(self@.frames =~= old(self)@.frames.skip(1));
            } else {
                assert(self@.frames =~= old(self)@.frames);
            }
        }
        r
    }

    /// Takes in as much of `data` as there is space for and deframes what is
    /// then held. Returns how many bytes were taken.
    pub fn read(&mut self, data: &[u8]) -> (n: usize)
        ensures
            n == if data@.len() <= old(self)@.room() {
                data@.len()
            } else {
                old(self)@.room()
            },
            final(self)@ == old(self)@.absorb(data@.take(n as int)),
            settled(old(self)@) ==> settled(final(self)@),
    {
        proof {
            if settled(old(self)@) {
                let taken = if data@.len() <= old(self)@.room() {
                    data@
                } else {
                    data@.take(old(self)@.room() as int)
                };
                lemma_absorb_settled(old(self)@, taken);
                assert(data@.take(data@.len() as int) =~= data@);
            }
        }
        let space = self.space();
        let n = if data.len() <= space {
            data.len()
        } else {
            space
        };
        self.buf.extend_from_slice(slice_subrange(data, 0, n));
        let ghost whole = old(self)@.pending + data@.take(n as int);
        assert(self.buf@ =~= whole);
        let ghost target = deframed(whole);
        let ghost first = old(self)@.frames;
        let total = self.buf.len();
        let mut pos: usize = 0;
        let mut bad = false;
        assert(whole.skip(0) =~= whole);
        assert(first + Seq::<RecordView>::empty() =~= first);
        loop
            invariant_except_break
                !bad,
            invariant
                pos <= total,
                total == whole.len(),
                self.buf@ == whole,
                target == deframed(whole),
                self.desynced == old(self).desynced,
                self.frames@.map_values(|m: OpaqueMessage| m@) + deframed(whole.skip(pos as int)).frames
                    == first + target.frames,
                deframed(whole.skip(pos as int)).pending == target.pending,
                deframed(whole.skip(pos as int)).desynced == target.desynced,
            ensures
                pos <= total,
                total == whole.len(),
                self.buf@ == whole,
                self.desynced == old(self).desynced,
                self.frames@.map_values(|m: OpaqueMessage| m@) == first + target.frames,
                whole.skip(pos as int) == target.pending,
                bad == target.desynced,
            decreases total - pos,
        {
            let ghost rest = whole.skip(pos as int);
            let ghost done = self.frames@.map_values(|m: OpaqueMessage| m@);
            if total - pos < HEADER_LEN {
                assert(front(rest) is Partial);
                assert(done + Seq::<RecordView>::empty() =~= done);
                break ;
            }
            let typ = ContentType::from_u8(self.buf[pos]);
            let version = ProtocolVersion::from_u16(get_u16(self.buf[pos + 1], self.buf[pos + 2]));
            let len = get_u16(self.buf[pos + 3], self.buf[pos + 4]) as usize;
            let type_ok = match typ {
                ContentType::Unknown(_) => false,
                _ => true,
            };
            let version_ok = match version {
                ProtocolVersion::Unknown(v) => v / 256 == 3,
                _ => true,
            };
            if !type_ok || !version_ok || len > MAX_WIRE_PAYLOAD {
                assert(front(rest) is Invalid);
                assert(done + Seq::<RecordView>::empty() =~= done);
                bad = true;
                break ;
            }
            if total - pos < HEADER_LEN + len {
                assert(front(rest) is Partial);
                assert(done + Seq::<RecordView>::empty() =~= done);
                break ;
            }
            let payload = slice_to_vec(
                slice_subrange(self.buf.as_slice(), pos + HEADER_LEN, pos + HEADER_LEN + len),
            );
            let m = OpaqueMessage { typ, version, payload };
            proof {
                assert(rest.subrange(HEADER_LEN as int, HEADER_LEN + len) =~= payload@);
                assert(front(rest) == Front::Record(m@, (HEADER_LEN + len) as nat));
                assert(rest.skip(HEADER_LEN + len) =~= whole.skip(pos + HEADER_LEN + len));
                let after = deframed(whole.skip(pos + HEADER_LEN + len));
                assert(done.push(m@) + after.frames =~= done + (seq![m@] + after.frames));
            }
            self.frames.push_back(m);
            assert(self.frames@.map_values(|m: OpaqueMessage| m@) =~= done.push(m@));
            pos = pos + HEADER_LEN + len;
        }
        if bad {
            self.desynced = true;
        }
        let tail = self.buf.split_off(pos);
        self.buf = tail;
        proof {
            assert(self.buf@ =~= target.pending);
        }
        n
    }
}

} // verus!
