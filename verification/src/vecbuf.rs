use std::collections::VecDeque;
use vstd::prelude::*;
use vstd::slice::{slice_subrange, slice_to_vec};

verus! {

/// What is left of a chunk queue after `used` bytes were taken from its
/// front: whole chunks go first, and a chunk that is only partly taken keeps
/// its tail.
pub open spec fn consumed(chunks: Seq<Seq<u8>>, used: nat) -> Seq<Seq<u8>>
    decreases chunks.len(),
{
    if chunks.len() == 0 {
        chunks
    } else if used < chunks[0].len() {
        seq![chunks[0].skip(used as int)] + chunks.skip(1)
    } else {
        consumed(chunks.skip(1), (used - chunks[0].len()) as nat)
    }
}

/// How many of `len` offered bytes a queue that holds `fill` bytes admits
/// under `limit`.
pub open spec fn admitted(limit: Option<usize>, fill: nat, len: nat) -> nat {
    match limit {
        Some(l) => if fill >= l {
            0
        } else if len <= l - fill {
            len
        } else {
            (l - fill) as nat
        },
        None => len,
    }
}

/// The total number of bytes admitted when the writes in `lens` are offered
/// one after the other to a queue that holds `fill` bytes.
pub open spec fn admitted_all(limit: Option<usize>, fill: nat, lens: Seq<nat>) -> nat
    decreases lens.len(),
{
    if lens.len() == 0 {
        0
    } else {
        let first = admitted(limit, fill, lens[0]);
        first + admitted_all(limit, fill + first, lens.skip(1))
    }
}

/// The sum of a sequence of lengths.
pub open spec fn sum_of(lens: Seq<nat>) -> nat
    decreases lens.len(),
{
    if lens.len() == 0 {
        0
    } else {
        lens[0] + sum_of(lens.skip(1))
    }
}

/// Offering writes of `limit + extra` bytes in total to an empty queue with
/// limit `limit` admits exactly `limit` bytes, however the writes are cut;
/// in general the queue admits the smaller of what is offered and what the
/// limit leaves free.
pub proof fn lemma_limit_admits_exactly(limit: usize, fill: nat, lens: Seq<nat>)
    requires
        fill <= limit,
    ensures
        admitted_all(Some(limit), fill, lens) == if sum_of(lens) <= limit - fill {
            sum_of(lens)
        } else {
            (limit - fill) as nat
        },
    decreases lens.len(),
{
    if lens.len() > 0 {
        let first = admitted(Some(limit), fill, lens[0]);
        lemma_limit_admits_exactly(limit, fill + first, lens.skip(1));
    }
}

/// Without a limit every offered byte is admitted.
pub proof fn lemma_no_limit_admits_all(fill: nat, lens: Seq<nat>)
    ensures
        admitted_all(None, fill, lens) == sum_of(lens),
    decreases lens.len(),
{
    if lens.len() > 0 {
        lemma_no_limit_admits_all(fill + lens[0], lens.skip(1));
    }
}

/// Taking bytes from the front of a queue removes exactly those bytes from
/// the concatenation of its chunks; taking all of them leaves no chunk.
pub proof fn lemma_consumed_flatten(chunks: Seq<Seq<u8>>, used: nat)
    ensures
        used <= chunks.flatten().len() ==> consumed(chunks, used).flatten() == chunks.flatten().skip(
            used as int,
        ),
        used >= chunks.flatten().len() ==> consumed(chunks, used).len() == 0,
    decreases chunks.len(),
{
    if chunks.len() == 0 {
    } else {
        let rest = chunks.skip(1);
        assert(chunks.drop_first() == rest);
        assert(chunks.flatten() == chunks[0] + rest.flatten());
        if used < chunks[0].len() {
            let out = seq![chunks[0].skip(used as int)] + rest;
            assert(out.drop_first() == rest);
            assert(out.flatten() == out[0] + rest.flatten());
            assert(out.flatten() == chunks.flatten().skip(used as int));
        } else {
            let less = (used - chunks[0].len()) as nat;
            lemma_consumed_flatten(rest, less);
            if used <= chunks.flatten().len() {
                assert(rest.flatten().skip(less as int) == chunks.flatten().skip(used as int));
            }
        }
    }
}

/// Taking bytes from the front in two steps is taking them in one.
pub proof fn lemma_consumed_split(chunks: Seq<Seq<u8>>, a: nat, b: nat)
    ensures
        consumed(consumed(chunks, a), b) == consumed(chunks, a + b),
    decreases chunks.len(),
{
    if chunks.len() == 0 {
    } else {
        let rest = chunks.skip(1);
        if a < chunks[0].len() {
            let mid = seq![chunks[0].skip(a as int)] + rest;
            assert(mid[0] == chunks[0].skip(a as int));
            assert(mid.skip(1) =~= rest);
            if b < mid[0].len() {
                assert(mid[0].skip(b as int) =~= chunks[0].skip((a + b) as int));
            } else {
                assert(a + b >= chunks[0].len());
                assert((b - mid[0].len()) as nat == (a + b - chunks[0].len()) as nat);
            }
        } else {
            lemma_consumed_split(rest, (a - chunks[0].len()) as nat, b);
            assert((a - chunks[0].len()) as nat + b == (a + b - chunks[0].len()) as nat);
        }
    }
}

/// Taking bytes from the front never adds a chunk.
pub proof fn lemma_consumed_shrinks(chunks: Seq<Seq<u8>>, used: nat)
    ensures
        consumed(chunks, used).len() <= chunks.len(),
    decreases chunks.len(),
{
    if chunks.len() > 0 && used >= chunks[0].len() {
        lemma_consumed_shrinks(chunks.skip(1), (used - chunks[0].len()) as nat);
    }
}

/// The mathematical value of a [`ChunkVecBuffer`]: its chunks in order, and
/// its limit.
pub ghost struct ChunkVecBufferView {
    pub chunks: Seq<Seq<u8>>,
    pub limit: Option<usize>,
}

impl ChunkVecBufferView {
    /// All bytes held, in order.
    pub open spec fn bytes(self) -> Seq<u8> {
        self.chunks.flatten()
    }

    /// The number of bytes held.
    pub open spec fn total(self) -> nat {
        self.chunks.flatten().len()
    }

    /// The queue after `bytes` was appended as one chunk; an empty chunk is
    /// not stored.
    pub open spec fn appended(self, bytes: Seq<u8>) -> ChunkVecBufferView {
        if bytes.len() == 0 {
            self
        } else {
            ChunkVecBufferView { chunks: self.chunks.push(bytes), ..self }
        }
    }

    /// No chunk is empty.
    pub open spec fn dense(self) -> bool {
        forall|i: int| 0 <= i < self.chunks.len() ==> (#[trigger] self.chunks[i]).len() > 0
    }

    /// The number of bytes held as the machine counts it: where the number
    /// does not fit the machine word, the largest machine word.
    pub open spec fn held(self) -> nat {
        if self.total() <= usize::MAX {
            self.total()
        } else {
            usize::MAX as nat
        }
    }
}

/// Where no chunk is empty, bytes are held exactly when a chunk is.
pub proof fn lemma_dense_total(v: ChunkVecBufferView)
    requires
        v.dense(),
    ensures
        (v.total() == 0) == (v.chunks.len() == 0),
{
    if v.chunks.len() > 0 {
        assert(v.chunks.flatten() == v.chunks[0] + v.chunks.drop_first().flatten());
    }
}

/// An ordered queue of byte chunks with an optional soft limit on the bytes
/// it admits. It never holds an empty chunk.
pub struct ChunkVecBuffer {
    chunks: VecDeque<Vec<u8>>,
    limit: Option<usize>,
}

impl View for ChunkVecBuffer {
    type V = ChunkVecBufferView;

    closed spec fn view(&self) -> ChunkVecBufferView {
        ChunkVecBufferView { chunks: self.chunks@.map_values(|c: Vec<u8>| c@), limit: self.limit }
    }
}

impl ChunkVecBuffer {
    #[verifier::type_invariant]
    spec fn no_empty_chunk(self) -> bool {
        forall|i: int| 0 <= i < self.chunks@.len() ==> (#[trigger] self.chunks@[i])@.len() > 0
    }

    proof fn lemma_dense(&self)
        requires
            self.no_empty_chunk(),
        ensures
            self@.dense(),
            (self@.total() == 0) == (self@.chunks.len() == 0),
    {
        assert forall|i: int| 0 <= i < self@.chunks.len() implies (#[trigger] self@.chunks[i]).len()
            > 0 by {
            assert(self@.chunks[i] == self.chunks@[i]@);
        }
        lemma_dense_total(self@);
    }

    /// An empty queue with the given limit; `None` means no limit.
    pub fn new(limit: Option<usize>) -> (r: ChunkVecBuffer)
        ensures
            r@.chunks == Seq::<Seq<u8>>::empty(),
            r@.limit == limit,
            r@.dense(),
    {
        let r = ChunkVecBuffer { chunks: VecDeque::new(), limit };
        assert(r@.chunks =~= Seq::<Seq<u8>>::empty());
        r
    }

    /// Replaces the limit. Bytes already held stay, also where they exceed
    /// the new limit.
    pub fn set_limit(&mut self, new_limit: Option<usize>)
        ensures
            final(self)@.chunks == old(self)@.chunks,
            final(self)@.limit == new_limit,
    {
        proof {
            use_type_invariant(&*self);
        }
        self.limit = new_limit;
    }

    /// True when no byte is held, which is when no chunk is held.
    pub fn is_empty(&self) -> (r: bool)
        ensures
            r == (self@.total() == 0),
            r == (self@.chunks.len() == 0),
            self@.dense(),
    {
        proof {
            use_type_invariant(self);
            self.lemma_dense();
        }
        self.chunks.len() == 0
    }

    /// True when a limit is set and more bytes are held than it allows.
    pub fn is_full(&self) -> (r: bool)
        ensures
            r == match self@.limit {
                Some(l) => self@.held() > l,
                None => false,
            },
    {
        match self.limit {
            Some(limit) => {
                let total = self.len();
                total > limit
            },
            None => false,
        }
    }

    /// The number of bytes held.
    pub fn len(&self) -> (r: usize)
        ensures
            r == self@.held(),
            self@.dense(),
            (r == 0) == (self@.chunks.len() == 0),
    {
        proof {
            use_type_invariant(self);
            self.lemma_dense();
        }
        let mut sum: usize = 0;
        let mut i: usize = 0;
        let n = self.chunks.len();
        assert(self@.chunks.take(0) =~= Seq::<Seq<u8>>::empty());
        while i < n
            invariant
                n == self.chunks@.len(),
                i <= n,
                sum == if self@.chunks.take(i as int).flatten().len() <= usize::MAX {
                    self@.chunks.take(i as int).flatten().len()
                } else {
                    usize::MAX as nat
                },
            decreases n - i,
        {
            let l = self.chunks[i].len();
            proof {
                let before = self@.chunks.take(i as int);
                assert(self@.chunks.take(i + 1) =~= before.push(self@.chunks[i as int]));
                before.lemma_flatten_push(self@.chunks[i as int]);
            }
            if l > usize::MAX - sum {
                sum = usize::MAX;
            } else {
                sum = sum + l;
            }
            i = i + 1;
        }
        assert(self@.chunks.take(n as int) =~= self@.chunks);
        sum
    }

    /// How many of `len` offered bytes fit under the limit.
    pub fn apply_limit(&self, len: usize) -> (r: usize)
        ensures
            r == admitted(self@.limit, self@.held(), len as nat),
            r <= len,
    {
        match self.limit {
            Some(limit) => {
                let held = self.len();
                if held >= limit {
                    0
                } else {
                    let space = limit - held;
                    if len <= space {
                        len
                    } else {
                        space
                    }
                }
            },
            None => len,
        }
    }

    /// Appends a copy of as much of `bytes` as the limit admits, and returns
    /// how many bytes that was.
    pub fn append_limited_copy(&mut self, bytes: &[u8]) -> (take: usize)
        ensures
            take == admitted(old(self)@.limit, old(self)@.held(), bytes@.len()),
            final(self)@ == old(self)@.appended(bytes@.take(take as int)),
            final(self)@.total() == old(self)@.total() + take,
    {
        let take = self.apply_limit(bytes.len());
        let part = slice_to_vec(slice_subrange(bytes, 0, take));
        self.append(part);
        take
    }

    /// Appends `bytes` as one chunk, whatever the limit, and returns its
    /// length. An empty chunk is not stored.
    pub fn append(&mut self, bytes: Vec<u8>) -> (len: usize)
        ensures
            len == bytes@.len(),
            final(self)@ == old(self)@.appended(bytes@),
            final(self)@.total() == old(self)@.total() + bytes@.len(),
    {
        let len = bytes.len();
        let ghost b = bytes@;
        if len != 0 {
            proof {
                use_type_invariant(&*self);
            }
            let mut chunks: VecDeque<Vec<u8>> = VecDeque::new();
            core::mem::swap(&mut self.chunks, &mut chunks);
            chunks.push_back(bytes);
            self.chunks = chunks;
            proof {
                assert(self@.chunks =~= old(self)@.chunks.push(b));
                old(self)@.chunks.lemma_flatten_push(b);
            }
        }
        assert(self@ == old(self)@.appended(b));
        len
    }

    /// Takes the first chunk out, if there is one.
    pub fn pop(&mut self) -> (r: Option<Vec<u8>>)
        ensures
            final(self)@.limit == old(self)@.limit,
            match r {
                Some(c) => old(self)@.chunks.len() > 0 && c@ == old(self)@.chunks[0] && c@.len() > 0
                    && final(self)@.chunks == old(self)@.chunks.skip(1),
                None => old(self)@.chunks.len() == 0 && final(self)@.chunks == old(self)@.chunks,
            },
    {
        proof {
            use_type_invariant(&*self);
        }
        let mut chunks: VecDeque<Vec<u8>> = VecDeque::new();
        core::mem::swap(&mut self.chunks, &mut chunks);
        let r = chunks.pop_front();
        self.chunks = chunks;
        proof {
            if r.is_some() {
                assert(self@.chunks =~= old(self)@.chunks.skip(1));
                assert(old(self)@.chunks[0] == old(self).chunks@[0]@);
            } else {
                assert(self@.chunks =~= old(self)@.chunks);
            }
        }
        r
    }

    /// The number of chunks held.
    pub fn chunk_count(&self) -> (r: usize)
        ensures
            r == self@.chunks.len(),
    {
        self.chunks.len()
    }

    /// The chunk at position `i`, counted from the front.
    pub fn chunk(&self, i: usize) -> (r: &[u8])
        requires
            i < self@.chunks.len(),
        ensures
            r@ == self@.chunks[i as int],
    {
        self.chunks[i].as_slice()
    }

    /// Drops `used` bytes from the front. Dropping more than is held empties
    /// the queue.
    pub fn consume(&mut self, used: usize)
        ensures
            final(self)@.limit == old(self)@.limit,
            final(self)@.chunks == consumed(old(self)@.chunks, used as nat),
    {
        proof {
            use_type_invariant(&*self);
        }
        let mut chunks: VecDeque<Vec<u8>> = VecDeque::new();
        core::mem::swap(&mut self.chunks, &mut chunks);
        let ghost start = chunks@.map_values(|c: Vec<u8>| c@);
        assert(start =~= old(self)@.chunks);
        let mut left = used;
        loop
            invariant_except_break
                consumed(chunks@.map_values(|c: Vec<u8>| c@), left as nat) == consumed(
                    start,
                    used as nat,
                ),
            invariant
                forall|i: int| 0 <= i < chunks@.len() ==> (#[trigger] chunks@[i])@.len() > 0,
            ensures
                chunks@.map_values(|c: Vec<u8>| c@) == consumed(start, used as nat),
                forall|i: int| 0 <= i < chunks@.len() ==> (#[trigger] chunks@[i])@.len() > 0,
            decreases chunks@.len(),
        {
            let ghost before = chunks@.map_values(|c: Vec<u8>| c@);
            let ghost held = chunks@;
            match chunks.pop_front() {
                Some(mut buf) => {
                    assert(chunks@.map_values(|c: Vec<u8>| c@) =~= before.skip(1));
                    assert(before[0] == buf@);
                    assert forall|i: int| 0 <= i < chunks@.len() implies (#[trigger] chunks@[i])@.len()
                        > 0 by {
                        assert(chunks@[i] == held[i + 1]);
                    }
                    if left < buf.len() {
                        let tail = buf.split_off(left);
                        let ghost rest = chunks@;
                        chunks.push_front(tail);
                        assert(chunks@.map_values(|c: Vec<u8>| c@) =~= seq![
                            before[0].skip(left as int),
                        ] + before.skip(1));
                        assert forall|i: int| 0 <= i < chunks@.len() implies (
                        #[trigger] chunks@[i])@.len() > 0 by {
                            if i > 0 {
                                assert(chunks@[i] == rest[i - 1]);
                            }
                        }
                        break ;
                    } else {
                        left = left - buf.len();
                    }
                },
                None => {
                    assert(chunks@.map_values(|c: Vec<u8>| c@) =~= before);
                    break ;
                },
            }
        }
        self.chunks = chunks;
    }

    /// Copies bytes from the front of the queue into `buf`, as many as are
    /// held and fit, and drops them from the queue. Returns how many.
    pub fn read(&mut self, buf: &mut [u8]) -> (n: usize)
        ensures
            n == if old(self)@.total() <= old(buf)@.len() {
                old(self)@.total()
            } else {
                old(buf)@.len()
            },
            final(buf)@ == old(self)@.bytes().take(n as int) + old(buf)@.skip(n as int),
            final(self)@.limit == old(self)@.limit,
            final(self)@.chunks == consumed(old(self)@.chunks, n as nat),
            final(self)@.bytes() == old(self)@.bytes().skip(n as int),
    {
        let mut offs: usize = 0;
        let size = buf.len();
        let ghost mut ran = false;
        proof {
            use_type_invariant(&*self);
            self.lemma_dense();
            if self@.chunks.len() > 0 {
                assert(self@.chunks[0].skip(0) =~= self@.chunks[0]);
                assert(consumed(self@.chunks, 0) =~= self@.chunks);
            }
            assert(old(self)@.bytes().skip(0) =~= old(self)@.bytes());
            assert(old(self)@.bytes().take(0) + old(buf)@.skip(0) =~= old(buf)@);
        }
        while offs < size && self.chunks.len() > 0
            invariant
                size == buf@.len(),
                size == old(buf)@.len(),
                offs <= size,
                offs <= old(self)@.total(),
                self@.limit == old(self)@.limit,
                !ran ==> offs == 0,
                ran ==> size > 0,
                self@.chunks == if ran {
                    consumed(old(self)@.chunks, offs as nat)
                } else {
                    old(self)@.chunks
                },
                self@.bytes() == old(self)@.bytes().skip(offs as int),
                buf@ == old(self)@.bytes().take(offs as int) + old(buf)@.skip(offs as int),
            decreases self@.chunks.len() + size - offs,
        {
            let ghost held = self@.chunks;
            let ghost flat = self@.bytes();
            let ghost all = old(self)@.bytes();
            assert(held.flatten() == held[0] + held.drop_first().flatten());
            assert(flat.len() == all.len() - offs);
            let front_len = self.chunks[0].len();
            let used = if front_len <= size - offs {
                front_len
            } else {
                size - offs
            };
            let mut k: usize = 0;
            while k < used
                invariant
                    k <= used,
                    used <= front_len,
                    used <= size - offs,
                    size == buf@.len(),
                    size == old(buf)@.len(),
                    self.chunks@.len() > 0,
                    front_len == self.chunks@[0]@.len(),
                    held == self@.chunks,
                    held[0] == self.chunks@[0]@,
                    flat == held[0] + held.drop_first().flatten(),
                    flat == all.skip(offs as int),
                    flat.len() == all.len() - offs,
                    offs <= all.len(),
                    all == old(self)@.bytes(),
                    buf@ == all.take(offs + k) + old(buf)@.skip(offs + k),
                decreases used - k,
            {
                let b = self.chunks[0][k];
                let ghost prev = buf@;
                buf[offs + k] = b;
                proof {
                    assert(b == flat[k as int]);
                    assert(flat[k as int] == all[offs + k]);
                    assert(buf@ == prev.update(offs + k, b));
                    assert(buf@ =~= all.take(offs + k + 1) + old(buf)@.skip(offs + k + 1));
                }
                k = k + 1;
            }
            self.consume(used);
            proof {
                lemma_consumed_split(old(self)@.chunks, offs as nat, used as nat);
                lemma_consumed_flatten(held, used as nat);
                assert(flat.skip(used as int) =~= all.skip(offs + used));
                lemma_consumed_shrinks(held, used as nat);
                if used == 0 {
                    assert(held[0].len() == 0);
                    lemma_consumed_shrinks(held.skip(1), 0);
                }
                ran = true;
            }
            offs = offs + used;
        }
        proof {
            if offs < size {
                assert(self@.chunks.len() == 0);
                assert(self@.bytes().len() == 0);
            }
            if !ran && size > 0 {
                assert(old(self)@.chunks.len() == 0);
                assert(consumed(old(self)@.chunks, 0) == old(self)@.chunks);
            }
        }
        offs
    }
}

} // verus!
