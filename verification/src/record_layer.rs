use crate::cipher::{CipherView, RecordCipher};
use crate::error::{Error, ErrorView};
use crate::msgs::message::{BorrowedPlainMessage, OpaqueMessage, PlainMessage, RecordView, MAX_FRAGMENT_LEN};
use vstd::prelude::*;

verus! {

/// From this sequence number on, the connection asks to be closed before it
/// protects another record.
pub const SEQ_SOFT_LIMIT: u64 = 0xffff_ffff_ffff_0000u64;

/// From this sequence number on, no record is protected or opened any more.
pub const SEQ_HARD_LIMIT: u64 = 0xffff_ffff_ffff_fffeu64;

/// Where one direction of the record layer stands.
#[derive(Clone, Copy, Debug, PartialEq, Eq, Structural)]
pub enum DirectionState {
    /// No keying.
    Invalid,
    /// A keying is staged but not yet in force.
    Prepared,
    /// The keying is in force.
    Active,
}

/// The mathematical value of one direction: its keying, whether it is in
/// force, the sequence number of the next record, and the number of keyings
/// that were installed so far (the key epoch).
pub ghost struct DirectionView {
    pub cipher: Option<CipherView>,
    pub state: DirectionState,
    pub seq: u64,
    pub epoch: nat,
}

impl DirectionView {
    /// True when records of this direction are protected.
    pub open spec fn active(self) -> bool {
        self.state == DirectionState::Active && self.cipher is Some
    }

    /// The direction after a keying was installed: a new epoch begins, and
    /// its sequence numbers start at zero.
    pub open spec fn keyed(self, cipher: CipherView, state: DirectionState) -> DirectionView {
        DirectionView { cipher: Some(cipher), state, seq: 0, epoch: self.epoch + 1 }
    }

    /// The direction after one record went through it.
    pub open spec fn advanced(self) -> DirectionView {
        DirectionView { seq: (self.seq + 1) as u64, ..self }
    }

    /// A direction without keying, in which no record went yet.
    pub open spec fn unkeyed() -> DirectionView {
        DirectionView { cipher: None, state: DirectionState::Invalid, seq: 0, epoch: 0 }
    }

    /// The key epoch and the sequence number of the next record.
    pub open spec fn label(self) -> (nat, u64) {
        (self.epoch, self.seq)
    }
}

/// The mathematical value of a [`RecordLayer`].
pub ghost struct RecordLayerView {
    pub write: DirectionView,
    pub read: DirectionView,
}

/// What can happen to the sending direction.
pub ghost enum WriteEvent {
    /// A keying is installed.
    Install,
    /// A record is offered for protection.
    Encrypt,
}

/// The epoch and sequence number of the sending direction after `ev`. A
/// record offered at the hard limit is refused and changes nothing.
pub open spec fn write_step(at: (nat, u64), ev: WriteEvent) -> (nat, u64) {
    match ev {
        WriteEvent::Install => (at.0 + 1, 0u64),
        WriteEvent::Encrypt => if at.1 >= SEQ_HARD_LIMIT {
            at
        } else {
            (at.0, (at.1 + 1) as u64)
        },
    }
}

/// The epoch and sequence number under which each record is protected when
/// the events happen in order, starting at `at`.
pub open spec fn write_labels(at: (nat, u64), events: Seq<WriteEvent>) -> Seq<(nat, u64)>
    decreases events.len(),
{
    if events.len() == 0 {
        Seq::empty()
    } else {
        let rest = write_labels(write_step(at, events[0]), events.skip(1));
        match events[0] {
            WriteEvent::Encrypt => if at.1 >= SEQ_HARD_LIMIT {
                rest
            } else {
                seq![at] + rest
            },
            WriteEvent::Install => rest,
        }
    }
}

/// Lexicographic order on epoch and sequence number.
pub open spec fn label_le(a: (nat, u64), b: (nat, u64)) -> bool {
    a.0 < b.0 || (a.0 == b.0 && a.1 <= b.1)
}

/// Every label used from `at` on is at or after `at`, labels grow strictly,
/// and none reaches the hard limit.
proof fn lemma_labels_grow(at: (nat, u64), events: Seq<WriteEvent>)
    ensures
        forall|i: int|
            0 <= i < write_labels(at, events).len() ==> label_le(
                at,
                #[trigger] write_labels(at, events)[i],
            ) && write_labels(at, events)[i].1 < SEQ_HARD_LIMIT,
        forall|i: int, j: int|
            0 <= i < j < write_labels(at, events).len() ==> label_le(
                #[trigger] write_labels(at, events)[i],
                #[trigger] write_labels(at, events)[j],
            ) && write_labels(at, events)[i] != write_labels(at, events)[j],
    decreases events.len(),
{
    if events.len() > 0 {
        let next = write_step(at, events[0]);
        let rest = write_labels(next, events.skip(1));
        lemma_labels_grow(next, events.skip(1));
        let all = write_labels(at, events);
        assert(label_le(at, next));
        if events[0] is Encrypt && at.1 < SEQ_HARD_LIMIT {
            assert(all =~= seq![at] + rest);
            assert forall|i: int| 0 <= i < all.len() implies label_le(at, #[trigger] all[i])
                && all[i].1 < SEQ_HARD_LIMIT by {
                if i > 0 {
                    assert(all[i] == rest[i - 1]);
                }
            }
            assert forall|i: int, j: int| 0 <= i < j < all.len() implies label_le(
                #[trigger] all[i],
                #[trigger] all[j],
            ) && all[i] != all[j] by {
                assert(all[j] == rest[j - 1]);
                if i > 0 {
                    assert(all[i] == rest[i - 1]);
                } else {
                    assert(label_le(next, rest[j - 1]));
                }
            }
        } else {
            assert(all =~= rest);
            assert forall|i: int| 0 <= i < all.len() implies label_le(at, #[trigger] all[i])
                && all[i].1 < SEQ_HARD_LIMIT by {
                assert(label_le(next, rest[i]));
            }
        }
    }
}

/// The events of the sending direction move its key epoch and sequence
/// number as the record layer does: installing a keying is `keyed`, and
/// protecting a record below the hard limit is `advanced`.
pub proof fn lemma_write_step_follows(d: DirectionView, cipher: CipherView, state: DirectionState)
    ensures
        write_step(d.label(), WriteEvent::Install) == d.keyed(cipher, state).label(),
        d.seq < SEQ_HARD_LIMIT ==> write_step(d.label(), WriteEvent::Encrypt) == d.advanced().label(),
        d.seq >= SEQ_HARD_LIMIT ==> write_step(d.label(), WriteEvent::Encrypt) == d.label(),
{
}

/// Whatever keyings are installed and whatever records are offered, in
/// whatever order: no two records are protected under the same key epoch
/// and sequence number, and no record is protected at a sequence number
/// from which the counter could wrap.
pub proof fn lemma_nonce_uniqueness(at: (nat, u64), events: Seq<WriteEvent>)
    ensures
        forall|i: int, j: int|
            0 <= i < j < write_labels(at, events).len() ==> #[trigger] write_labels(at, events)[i]
                != #[trigger] write_labels(at, events)[j],
        forall|i: int|
            0 <= i < write_labels(at, events).len() ==> (#[trigger] write_labels(at, events)[i]).1
                < SEQ_HARD_LIMIT,
{
    lemma_labels_grow(at, events);
}

/// The two directions of record protection, each with its keying and its
/// 64-bit sequence counter.
pub struct RecordLayer {
    message_encrypter: Option<RecordCipher>,
    message_decrypter: Option<RecordCipher>,
    write_seq: u64,
    read_seq: u64,
    encrypt_state: DirectionState,
    decrypt_state: DirectionState,
    write_epoch: Ghost<nat>,
    read_epoch: Ghost<nat>,
}

/// The mathematical value of a keying that may be missing.
pub open spec fn cipher_view(c: Option<RecordCipher>) -> Option<CipherView> {
    match c {
        Some(c) => Some(c@),
        None => None,
    }
}

impl View for RecordLayer {
    type V = RecordLayerView;

    closed spec fn view(&self) -> RecordLayerView {
        RecordLayerView {
            write: DirectionView {
                cipher: cipher_view(self.message_encrypter),
                state: self.encrypt_state,
                seq: self.write_seq,
                epoch: self.write_epoch@,
            },
            read: DirectionView {
                cipher: cipher_view(self.message_decrypter),
                state: self.decrypt_state,
                seq: self.read_seq,
                epoch: self.read_epoch@,
            },
        }
    }
}

impl RecordLayer {
    /// A record layer without keying in either direction.
    pub fn new() -> (r: RecordLayer)
        ensures
            r@ == (RecordLayerView {
                write: DirectionView::unkeyed(),
                read: DirectionView::unkeyed(),
            }),
    {
        RecordLayer {
            message_encrypter: None,
            message_decrypter: None,
            write_seq: 0,
            read_seq: 0,
            encrypt_state: DirectionState::Invalid,
            decrypt_state: DirectionState::Invalid,
            write_epoch: Ghost(0),
            read_epoch: Ghost(0),
        }
    }

    /// True when outgoing records are protected.
    pub fn is_encrypting(&self) -> (r: bool)
        ensures
            r == self@.write.active(),
    {
        self.encrypt_state == DirectionState::Active && self.message_encrypter.is_some()
    }

    /// True when incoming records are expected to be protected.
    pub fn is_decrypting(&self) -> (r: bool)
        ensures
            r == self@.read.active(),
    {
        self.decrypt_state == DirectionState::Active && self.message_decrypter.is_some()
    }

    /// Stages a keying for outgoing records; it comes into force with
    /// `start_encrypting`. The sequence number starts again at zero.
    pub fn prepare_message_encrypter(&mut self, cipher: RecordCipher)
        ensures
            final(self)@.write == old(self)@.write.keyed(cipher@, DirectionState::Prepared),
            final(self)@.read == old(self)@.read,
    {
        self.message_encrypter = Some(cipher);
        self.write_seq = 0;
        self.encrypt_state = DirectionState::Prepared;
        proof {
            self.write_epoch@ = self.write_epoch@ + 1;
        }
    }

    /// Stages a keying for incoming records; it comes into force with
    /// `start_decrypting`. The sequence number starts again at zero.
    pub fn prepare_message_decrypter(&mut self, cipher: RecordCipher)
        ensures
            final(self)@.read == old(self)@.read.keyed(cipher@, DirectionState::Prepared),
            final(self)@.write == old(self)@.write,
    {
        self.message_decrypter = Some(cipher);
        self.read_seq = 0;
        self.decrypt_state = DirectionState::Prepared;
        proof {
            self.read_epoch@ = self.read_epoch@ + 1;
        }
    }

    /// Puts the staged keying for outgoing records into force. Without a
    /// staged keying nothing changes.
    pub fn start_encrypting(&mut self)
        ensures
            final(self)@.read == old(self)@.read,
            final(self)@.write == if old(self)@.write.state == DirectionState::Prepared {
                DirectionView { state: DirectionState::Active, ..old(self)@.write }
            } else {
                old(self)@.write
            },
    {
        if self.encrypt_state == DirectionState::Prepared {
            self.encrypt_state = DirectionState::Active;
        }
    }

    /// Puts the staged keying for incoming records into force. Without a
    /// staged keying nothing changes.
    pub fn start_decrypting(&mut self)
        ensures
            final(self)@.write == old(self)@.write,
            final(self)@.read == if old(self)@.read.state == DirectionState::Prepared {
                DirectionView { state: DirectionState::Active, ..old(self)@.read }
            } else {
                old(self)@.read
            },
    {
        if self.decrypt_state == DirectionState::Prepared {
            self.decrypt_state = DirectionState::Active;
        }
    }

    /// Installs a keying for outgoing records and puts it into force. The
    /// sequence number starts again at zero.
    pub fn set_message_encrypter(&mut self, cipher: RecordCipher)
        ensures
            final(self)@.write == old(self)@.write.keyed(cipher@, DirectionState::Active),
            final(self)@.read == old(self)@.read,
            final(self)@.write.active(),
    {
        self.prepare_message_encrypter(cipher);
        self.start_encrypting();
    }

    /// Installs a keying for incoming records and puts it into force. The
    /// sequence number starts again at zero.
    pub fn set_message_decrypter(&mut self, cipher: RecordCipher)
        ensures
            final(self)@.read == old(self)@.read.keyed(cipher@, DirectionState::Active),
            final(self)@.write == old(self)@.write,
            final(self)@.read.active(),
    {
        self.prepare_message_decrypter(cipher);
        self.start_decrypting();
    }

    /// True when the connection should be closed before the next record is
    /// opened: the sequence numbers for incoming records are nearly used up.
    pub fn wants_close_before_decrypt(&self) -> (r: bool)
        ensures
            r == (self@.read.seq >= SEQ_SOFT_LIMIT),
    {
        self.read_seq >= SEQ_SOFT_LIMIT
    }

    /// True when the connection should be closed before the next record is
    /// protected: the sequence numbers for outgoing records are nearly used up.
    pub fn wants_close_before_encrypt(&self) -> (r: bool)
        ensures
            r == (self@.write.seq >= SEQ_SOFT_LIMIT),
    {
        self.write_seq >= SEQ_SOFT_LIMIT
    }

    /// True when no further record can be protected without the sequence
    /// number wrapping.
    pub fn encrypt_exhausted(&self) -> (r: bool)
        ensures
            r == (self@.write.seq >= SEQ_HARD_LIMIT),
    {
        self.write_seq >= SEQ_HARD_LIMIT
    }

    /// What opening `rec` gives in the state `v`: the plaintext record, or
    /// the error. At the hard limit of the sequence number nothing is opened.
    pub open spec fn incoming(v: RecordLayerView, rec: RecordView) -> Result<RecordView, ErrorView> {
        if v.read.seq >= SEQ_HARD_LIMIT {
            Err(ErrorView::DecryptError)
        } else {
            v.read.cipher->0.decrypted(v.read.seq, rec)
        }
    }

    /// Opens an incoming record under the next sequence number. On success
    /// the sequence number advances by one; on failure nothing changes.
    pub fn decrypt_incoming(&mut self, encr: OpaqueMessage) -> (r: Result<PlainMessage, Error>)
        requires
            old(self)@.read.active(),
        ensures
            final(self)@.write == old(self)@.write,
            match r {
                Ok(p) => Self::incoming(old(self)@, encr@) == Ok::<RecordView, ErrorView>(p@)
                    && final(self)@.read == old(self)@.read.advanced() && final(self)@.read.seq
                    == old(self)@.read.seq + 1,
                Err(e) => Self::incoming(old(self)@, encr@) == Err::<RecordView, ErrorView>(e@)
                    && final(self)@.read == old(self)@.read,
            },
    {
        if self.read_seq >= SEQ_HARD_LIMIT {
            return Err(Error::DecryptError);
        }
        let seq = self.read_seq;
        let r = match &self.message_decrypter {
            Some(c) => c.decrypt(encr, seq),
            None => Err(Error::DecryptError),
        };
        if r.is_ok() {
            self.read_seq = self.read_seq + 1;
        }
        r
    }

    /// Protects an outgoing record under the next sequence number, which
    /// then advances by one. What comes out opens again, under the same
    /// keying and sequence number, to what was put in.
    pub fn encrypt_outgoing(&mut self, plain: BorrowedPlainMessage<'_>) -> (r: OpaqueMessage)
        requires
            old(self)@.write.active(),
            old(self)@.write.seq < SEQ_HARD_LIMIT,
            plain@.payload.len() <= MAX_FRAGMENT_LEN,
        ensures
            final(self)@.read == old(self)@.read,
            final(self)@.write == old(self)@.write.advanced(),
            final(self)@.write.seq == old(self)@.write.seq + 1,
            r@ == old(self)@.write.cipher->0.encrypted(old(self)@.write.seq, plain@),
            r@.payload.len() <= plain@.payload.len() + 25,
            old(self)@.write.cipher->0.sendable(plain@) ==> old(self)@.write.cipher->0.decrypted(
                old(self)@.write.seq,
                r@,
            ) == Ok::<RecordView, ErrorView>(old(self)@.write.cipher->0.delivered(plain@)),
    {
        let seq = self.write_seq;
        self.write_seq = self.write_seq + 1;
        match &self.message_encrypter {
            Some(c) => c.encrypt(plain, seq),
            None => vstd::pervasive::unreached(),
        }
    }
}

} // verus!
