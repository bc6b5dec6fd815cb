use crate::msgs::enums::{ContentType, ProtocolVersion};
use crate::msgs::message::{BorrowedPlainMessage, PlainMessage, RecordView, HEADER_LEN, MAX_FRAGMENT_LEN};
use std::collections::VecDeque;
use vstd::prelude::*;
use vstd::slice::{slice_subrange, slice_to_vec};

verus! {

/// The smallest maximum fragment size that can be configured.
pub const MIN_FRAGMENT_SIZE: usize = 32;

/// A byte string cut into pieces of `max` bytes, the last one shorter where
/// the length is no multiple of `max`. An empty string has no pieces.
pub open spec fn chunked(payload: Seq<u8>, max: nat) -> Seq<Seq<u8>>
    decreases payload.len(),
{
    if max == 0 || payload.len() == 0 {
        Seq::empty()
    } else if payload.len() <= max {
        seq![payload]
    } else {
        seq![payload.take(max as int)] + chunked(payload.skip(max as int), max)
    }
}

/// The records that carry the pieces, each with the given type and version.
pub open spec fn pieces_as_records(
    typ: ContentType,
    version: ProtocolVersion,
    pieces: Seq<Seq<u8>>,
) -> Seq<RecordView> {
    pieces.map_values(|p: Seq<u8>| RecordView { typ, version, payload: p })
}

/// The fragments of a record: the record itself where it fits in one
/// fragment, else its payload cut into pieces.
pub open spec fn fragments(m: RecordView, max: nat) -> Seq<RecordView> {
    if m.payload.len() <= max {
        seq![m]
    } else {
        pieces_as_records(m.typ, m.version, chunked(m.payload, max))
    }
}

/// The pieces of a byte string are never empty, never longer than `max`, and
/// joined in order they give the string back.
pub proof fn lemma_chunked(payload: Seq<u8>, max: nat)
    requires
        max > 0,
    ensures
        chunked(payload, max).flatten() == payload,
        forall|i: int|
            0 <= i < chunked(payload, max).len() ==> 0 < (#[trigger] chunked(payload, max)[i]).len()
                <= max,
        payload.len() > 0 ==> chunked(payload, max).len() > 0,
    decreases payload.len(),
{
    let c = chunked(payload, max);
    if payload.len() == 0 {
        assert(c.flatten() =~= payload);
    } else if payload.len() <= max {
        c.lemma_flatten_one_element();
    } else {
        let rest = chunked(payload.skip(max as int), max);
        lemma_chunked(payload.skip(max as int), max);
        assert(c.drop_first() =~= rest);
        assert(c.flatten() == c[0] + rest.flatten());
        assert(c.flatten() =~= payload);
        assert forall|i: int| 0 <= i < c.len() implies 0 < (#[trigger] c[i]).len() <= max by {
            if i > 0 {
                assert(c[i] == rest[i - 1]);
            }
        }
    }
}

/// Every record made from the pieces of a byte string keeps the type and
/// version given, and carries between one and `max` bytes.
pub proof fn lemma_pieces_bounded(
    typ: ContentType,
    version: ProtocolVersion,
    payload: Seq<u8>,
    max: nat,
)
    requires
        max > 0,
    ensures
        forall|i: int|
            0 <= i < pieces_as_records(typ, version, chunked(payload, max)).len() ==> {
                let r = #[trigger] pieces_as_records(typ, version, chunked(payload, max))[i];
                r.typ == typ && r.version == version && 0 < r.payload.len() <= max
            },
{
    lemma_chunked(payload, max);
}

/// Every fragment of a record keeps its type and version and carries at
/// most `max` bytes.
pub proof fn lemma_fragments_bounded(m: RecordView, max: nat)
    requires
        max > 0,
    ensures
        forall|i: int|
            0 <= i < fragments(m, max).len() ==> {
                let r = #[trigger] fragments(m, max)[i];
                r.typ == m.typ && r.version == m.version && r.payload.len() <= max
            },
{
    lemma_pieces_bounded(m.typ, m.version, m.payload, max);
}

/// Cuts outgoing records into fragments of bounded size.
pub struct MessageFragmenter {
    max_frag: usize,
}

impl MessageFragmenter {
    /// What holds of every fragmenter: the largest payload of a fragment
    /// lies between 27 and 16384 bytes.
    #[verifier::type_invariant]
    pub closed spec fn bounded(self) -> bool {
        MIN_FRAGMENT_SIZE - HEADER_LEN <= self.max_frag <= MAX_FRAGMENT_LEN
    }

    /// The bounds that `bounded` stands for.
    pub proof fn lemma_bounded(self)
        requires
            self.bounded(),
        ensures
            MIN_FRAGMENT_SIZE - HEADER_LEN <= self.max_len() <= MAX_FRAGMENT_LEN,
    {
    }

    /// The largest payload a fragment carries.
    pub closed spec fn max_len(&self) -> nat {
        self.max_frag as nat
    }

    /// The largest payload of a fragment under the given configuration.
    /// A configured size counts the record header in; `None` stands for the
    /// protocol's own maximum.
    pub open spec fn max_len_for(max_fragment_size: Option<usize>) -> Option<nat> {
        match max_fragment_size {
            Some(sz) => if MIN_FRAGMENT_SIZE <= sz <= MAX_FRAGMENT_LEN {
                Some((sz - HEADER_LEN) as nat)
            } else {
                None
            },
            None => Some(MAX_FRAGMENT_LEN as nat),
        }
    }

    /// A fragmenter for the given maximum fragment size, which must lie
    /// between 32 and 16384; `None` selects 16384 bytes of payload.
    pub fn new(max_fragment_size: Option<usize>) -> (r: Result<MessageFragmenter, ()>)
        ensures
            match r {
                Ok(f) => Self::max_len_for(max_fragment_size) == Some(f.max_len()),
                Err(_) => Self::max_len_for(max_fragment_size) is None,
            },
    {
        match max_fragment_size {
            Some(sz) => {
                if MIN_FRAGMENT_SIZE <= sz && sz <= MAX_FRAGMENT_LEN {
                    Ok(MessageFragmenter { max_frag: sz - HEADER_LEN })
                } else {
                    Err(())
                }
            },
            None => Ok(MessageFragmenter { max_frag: MAX_FRAGMENT_LEN }),
        }
    }

    /// The largest payload a fragment carries.
    pub fn max_fragment_len(&self) -> (r: usize)
        ensures
            r == self.max_len(),
            MIN_FRAGMENT_SIZE - HEADER_LEN <= r <= MAX_FRAGMENT_LEN,
    {
        proof {
            use_type_invariant(self);
        }
        self.max_frag
    }

    /// Appends the fragments of `msg` to `out`. A record that fits in one
    /// fragment goes through as it is.
    pub fn fragment(&self, msg: PlainMessage, out: &mut VecDeque<PlainMessage>)
        ensures
            final(out)@.map_values(|m: PlainMessage| m@) == old(out)@.map_values(|m: PlainMessage| m@)
                + fragments(msg@, self.max_len()),
    {
        let max = self.max_fragment_len();
        let ghost before = old(out)@.map_values(|m: PlainMessage| m@);
        if msg.payload.len() <= max {
            let ghost v = msg@;
            out.push_back(msg);
            assert(out@.map_values(|m: PlainMessage| m@) =~= before + seq![v]);
            return ;
        }
        let typ = msg.typ;
        let version = msg.version;
        let data = msg.payload.as_slice();
        let total = data.len();
        let ghost all = pieces_as_records(typ, version, chunked(data@, max as nat));
        let mut off: usize = 0;
        assert(data@.skip(0) =~= data@);
        while off < total
            invariant
                off <= total,
                total == data@.len(),
                max > 0,
                all == pieces_as_records(typ, version, chunked(data@, max as nat)),
                out@.map_values(|m: PlainMessage| m@) + pieces_as_records(
                    typ,
                    version,
                    chunked(data@.skip(off as int), max as nat),
                ) == before + all,
            decreases total - off,
        {
            let end = if total - off <= max {
                total
            } else {
                off + max
            };
            let piece = slice_to_vec(slice_subrange(data, off, end));
            let ghost prev = out@.map_values(|m: PlainMessage| m@);
            let ghost rest = data@.skip(off as int);
            out.push_back(PlainMessage { typ, version, payload: piece });
            proof {
                let here = RecordView { typ, version, payload: piece@ };
                assert(out@.map_values(|m: PlainMessage| m@) =~= prev.push(here));
                lemma_chunked_step(typ, version, rest, max as nat);
                assert(rest.take((end - off) as int) =~= piece@);
                assert(rest.skip((end - off) as int) =~= data@.skip(end as int));
            }
            off = end;
        }
        proof {
            assert(chunked(data@.skip(off as int), max as nat) =~= Seq::<Seq<u8>>::empty());
            assert(pieces_as_records(typ, version, Seq::<Seq<u8>>::empty()) =~= Seq::<
                RecordView,
            >::empty());
        }
    }

    /// Appends to `out` the pieces of `payload`, each as a record of the
    /// given type and version. An empty payload gives no record.
    pub fn fragment_borrow<'a>(
        &self,
        typ: ContentType,
        version: ProtocolVersion,
        payload: &'a [u8],
        out: &mut VecDeque<BorrowedPlainMessage<'a>>,
    )
        ensures
            final(out)@.map_values(|m: BorrowedPlainMessage<'a>| m@) == old(out)@.map_values(
                |m: BorrowedPlainMessage<'a>| m@,
            ) + pieces_as_records(typ, version, chunked(payload@, self.max_len())),
    {
        let max = self.max_fragment_len();
        let ghost before = old(out)@.map_values(|m: BorrowedPlainMessage<'a>| m@);
        let total = payload.len();
        let ghost all = pieces_as_records(typ, version, chunked(payload@, max as nat));
        let mut off: usize = 0;
        assert(payload@.skip(0) =~= payload@);
        assert(out@.map_values(|m: BorrowedPlainMessage<'a>| m@) =~= before);
        while off < total
            invariant
                off <= total,
                total == payload@.len(),
                max > 0,
                all == pieces_as_records(typ, version, chunked(payload@, max as nat)),
                out@.map_values(|m: BorrowedPlainMessage<'a>| m@) + pieces_as_records(
                    typ,
                    version,
                    chunked(payload@.skip(off as int), max as nat),
                ) == before + all,
            decreases total - off,
        {
            let end = if total - off <= max {
                total
            } else {
                off + max
            };
            let piece = slice_subrange(payload, off, end);
            let ghost prev = out@.map_values(|m: BorrowedPlainMessage<'a>| m@);
            let ghost rest = payload@.skip(off as int);
            out.push_back(BorrowedPlainMessage { typ, version, payload: piece });
            proof {
                let here = RecordView { typ, version, payload: piece@ };
                assert(out@.map_values(|m: BorrowedPlainMessage<'a>| m@) =~= prev.push(here));
                lemma_chunked_step(typ, version, rest, max as nat);
                assert(rest.take((end - off) as int) =~= piece@);
                assert(rest.skip((end - off) as int) =~= payload@.skip(end as int));
            }
            off = end;
        }
        proof {
            assert(chunked(payload@.skip(off as int), max as nat) =~= Seq::<Seq<u8>>::empty());
            assert(pieces_as_records(typ, version, Seq::<Seq<u8>>::empty()) =~= Seq::<
                RecordView,
            >::empty());
        }
    }
}

/// The records of a non-empty byte string are the record of its first piece,
/// followed by the records of what is left.
proof fn lemma_chunked_step(typ: ContentType, version: ProtocolVersion, rest: Seq<u8>, max: nat)
    requires
        max > 0,
        rest.len() > 0,
    ensures
        ({
            let n = if rest.len() <= max {
                rest.len()
            } else {
                max
            };
            pieces_as_records(typ, version, chunked(rest, max)) == seq![
                RecordView { typ, version, payload: rest.take(n as int) },
            ] + pieces_as_records(typ, version, chunked(rest.skip(n as int), max))
        }),
{
    let n = if rest.len() <= max {
        rest.len()
    } else {
        max
    };
    if rest.len() <= max {
        assert(rest.take(n as int) =~= rest);
        assert(chunked(rest.skip(n as int), max) =~= Seq::<Seq<u8>>::empty());
    }
    assert(pieces_as_records(typ, version, chunked(rest, max)) =~= seq![
        RecordView { typ, version, payload: rest.take(n as int) },
    ] + pieces_as_records(typ, version, chunked(rest.skip(n as int), max)));
}

} // verus!
