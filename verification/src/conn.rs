use crate::cipher::RecordCipher;
use crate::crypto::aead_key_len;
use crate::error::{Error, ErrorView};
use crate::msgs::codec::{put_bytes, put_u16, u16_bytes};
use crate::msgs::deframer::{DeframerView, MessageDeframer};
use crate::msgs::enums::{
    AlertDescription, AlertLevel, ContentType, HandshakeType, ProtocolVersion,
};
use crate::msgs::fragmenter::{chunked, fragments, pieces_as_records, MessageFragmenter};
use crate::msgs::handshake::{
    client_finished_label, extended_master_secret_label, key_expansion_label, label_client_finished,
    label_extended_master_secret, label_key_expansion, label_master_secret, label_server_finished,
    master_secret_label, server_finished_label, Random,
};
use crate::msgs::hsjoiner::{HandshakeJoiner, JoinerView};
use crate::msgs::message::{
    parsed, AlertMessagePayload, BorrowedPlainMessage, Message, MessagePayload, MessagePayloadView,
    MessageView, OpaqueMessage, PlainMessage, RecordView, MAX_FRAGMENT_LEN,
};
use crate::prf::{prf, prf_output};
use crate::record_layer::{RecordLayer, RecordLayerView, SEQ_HARD_LIMIT, SEQ_SOFT_LIMIT};
use crate::suites::{SupportedCipherSuite, Tls12CipherSuite};
use crate::vecbuf::{admitted, consumed, ChunkVecBuffer, ChunkVecBufferView};
use std::collections::VecDeque;
use vstd::prelude::*;

verus! {

/// The mathematical value of an [`IoState`].
pub ghost struct IoStateView {
    pub tls_bytes_to_write: usize,
    pub plaintext_bytes_to_read: usize,
    pub peer_has_closed: bool,
}

/// Values of this structure are returned from `process_new_packets`
/// and tell the caller the current I/O state of the TLS connection.
#[derive(Debug, PartialEq)]
pub struct IoState {
    tls_bytes_to_write: usize,
    plaintext_bytes_to_read: usize,
    peer_has_closed: bool,
}

impl View for IoState {
    type V = IoStateView;

    closed spec fn view(&self) -> IoStateView {
        IoStateView {
            tls_bytes_to_write: self.tls_bytes_to_write,
            plaintext_bytes_to_read: self.plaintext_bytes_to_read,
            peer_has_closed: self.peer_has_closed,
        }
    }
}

impl IoState {
    /// How many bytes could be written by `write_tls` if called
    /// right now.  A non-zero value implies `wants_write`.
    pub fn tls_bytes_to_write(&self) -> (r: usize)
        ensures
            r == self@.tls_bytes_to_write,
    {
        self.tls_bytes_to_write
    }

    /// How many plaintext bytes could be obtained via the reader
    /// without further I/O.
    pub fn plaintext_bytes_to_read(&self) -> (r: usize)
        ensures
            r == self@.plaintext_bytes_to_read,
    {
        self.plaintext_bytes_to_read
    }

    /// True if the peer has sent us a close_notify alert.  This is
    /// the TLS mechanism to securely half-close a TLS connection,
    /// and signifies that the peer will not send any further data
    /// on this connection.
    ///
    /// This is also signalled via the reader returning `Ok(0)`, after all
    /// the received bytes have been retrieved.
    pub fn peer_has_closed(&self) -> (r: bool)
        ensures
            r == self@.peer_has_closed,
    {
        self.peer_has_closed
    }
}

/// The reader has nothing to give yet, and the peer has not closed.
#[derive(Clone, Copy, Debug, PartialEq, Eq, Structural)]
pub struct WouldBlock;

/// A structure that reads plaintext out of a connection.
pub struct Reader<'a> {
    /// The plaintext that waits to be read.
    pub received_plaintext: &'a mut ChunkVecBuffer,
    /// True when the peer has closed and nothing that it sent is still
    /// unprocessed.
    pub connection_at_eof: bool,
}

impl<'a> Reader<'a> {
    /// Obtain plaintext data received from the peer over this TLS connection.
    ///
    /// If the peer closes the TLS session cleanly, this returns `Ok(0)`  once all
    /// the pending data has been read. No further data can be received on that
    /// connection, so the underlying TCP connection should half-closed too.
    ///
    /// If there are no bytes to read and the peer has not closed, this
    /// returns `Err(WouldBlock)`.
    pub fn read(&mut self, buf: &mut [u8]) -> (r: Result<usize, WouldBlock>)
        ensures
            final(self).connection_at_eof == old(self).connection_at_eof,
            *final(final(self).received_plaintext) == *final(old(self).received_plaintext),
            final(self).received_plaintext@.limit == old(self).received_plaintext@.limit,
            final(self).received_plaintext@.bytes() == old(self).received_plaintext@.bytes().skip(
                n_read(old(self).received_plaintext@, old(buf)@.len()) as int,
            ),
            final(self).received_plaintext@.chunks == consumed(
                old(self).received_plaintext@.chunks,
                n_read(old(self).received_plaintext@, old(buf)@.len()),
            ),
            final(buf)@ == old(self).received_plaintext@.bytes().take(
                n_read(old(self).received_plaintext@, old(buf)@.len()) as int,
            ) + old(buf)@.skip(n_read(old(self).received_plaintext@, old(buf)@.len()) as int),
            r is Err <==> old(self).received_plaintext@.total() == 0 && old(buf)@.len() > 0
                && !old(self).connection_at_eof,
            r matches Ok(n) ==> n == n_read(old(self).received_plaintext@, old(buf)@.len()),
    {
        let not_empty = buf.len() > 0;
        let len = self.received_plaintext.read(buf);
        if len == 0 && not_empty {
            // no bytes available:
            // - if we received a close_notify, this is a genuine permanent EOF
            // - otherwise say EWOULDBLOCK
            if !self.connection_at_eof {
                return Err(WouldBlock);
            }
        }
        Ok(len)
    }
}

/// How many bytes a read into a buffer of `room` bytes takes out of `q`.
pub open spec fn n_read(q: ChunkVecBufferView, room: nat) -> nat {
    if q.total() <= room {
        q.total()
    } else {
        room
    }
}

/// What a [`Writer`] hands plaintext to: a connection, as a rule. Each sink
/// says for itself what its three operations do; one that says nothing
/// promises nothing.
pub trait PlaintextSink {
    /// True when a write of `buf` can take the sink from `before` to
    /// `after` with the result `r`.
    open spec fn wrote(before: &Self, after: &Self, buf: Seq<u8>, r: Result<usize, Error>) -> bool {
        true
    }

    /// True when a write of the buffers `bufs`, one after the other, can
    /// take the sink from `before` to `after` with the result `r`.
    open spec fn wrote_vectored(
        before: &Self,
        after: &Self,
        bufs: Seq<Seq<u8>>,
        r: Result<usize, Error>,
    ) -> bool {
        true
    }

    /// True when a flush can take the sink from `before` to `after` with
    /// the result `r`.
    open spec fn flushed(before: &Self, after: &Self, r: Result<(), Error>) -> bool {
        true
    }

    /// Takes plaintext from `buf`, and says how many bytes were taken.
    fn write(&mut self, buf: &[u8]) -> (r: Result<usize, Error>)
        ensures
            Self::wrote(old(self), final(self), buf@, r),
    ;

    /// Takes plaintext from each of the buffers in turn, and says how many
    /// bytes were taken in all.
    fn write_vectored(&mut self, bufs: &[&[u8]]) -> (r: Result<usize, Error>)
        ensures
            Self::wrote_vectored(old(self), final(self), bufs@.map_values(|b: &[u8]| b@), r),
    ;

    /// Passes on what the sink may have held back.
    fn flush(&mut self) -> (r: Result<(), Error>)
        ensures
            Self::flushed(old(self), final(self), r),
    ;
}

/// A structure that writes plaintext into a connection.
pub struct Writer<'a, S: PlaintextSink> {
    /// What the plaintext is handed to.
    pub sink: &'a mut S,
}

impl<'a, S: PlaintextSink> Writer<'a, S> {
    /// Create a new Writer.
    ///
    /// This is not an external interface.  Get one of these objects
    /// from the connection's `writer`.
    pub fn new(sink: &'a mut S) -> (r: Writer<'a, S>)
        ensures
            *r.sink == *old(sink),
            *final(sink) == *final(r.sink),
    {
        Writer { sink }
    }

    /// Send the plaintext `buf` to the peer, encrypting
    /// and authenticating it.  Once this function succeeds
    /// you should call `write_tls` which will output the
    /// corresponding TLS records.
    ///
    /// This function buffers plaintext sent before the
    /// TLS handshake completes, and sends it as soon
    /// as it can.  See `set_buffer_limit` to control
    /// the size of this buffer.
    pub fn write(&mut self, buf: &[u8]) -> (r: Result<usize, Error>)
        ensures
            S::wrote(&*old(self).sink, &*final(self).sink, buf@, r),
            *final(final(self).sink) == *final(old(self).sink),
    {
        self.sink.write(buf)
    }

    /// Sends the plaintext of the buffers, one after the other.
    pub fn write_vectored(&mut self, bufs: &[&[u8]]) -> (r: Result<usize, Error>)
        ensures
            S::wrote_vectored(
                &*old(self).sink,
                &*final(self).sink,
                bufs@.map_values(|b: &[u8]| b@),
                r,
            ),
            *final(final(self).sink) == *final(old(self).sink),
    {
        self.sink.write_vectored(bufs)
    }

    /// Flushes the sink.
    pub fn flush(&mut self) -> (r: Result<(), Error>)
        ensures
            S::flushed(&*old(self).sink, &*final(self).sink, r),
            *final(final(self).sink) == *final(old(self).sink),
    {
        self.sink.flush()
    }
}

/// The last eight bytes of a server random that tell a TLS 1.3 capable
/// client that the server is TLS 1.3 capable too, though it negotiated
/// TLS 1.2: the text `DOWNGRD` and the byte 1.
pub open spec fn tls12_downgrade_sentinel() -> Seq<u8> {
    seq![0x44u8, 0x4fu8, 0x57u8, 0x4eu8, 0x47u8, 0x52u8, 0x44u8, 0x01u8]
}

/// The bytes of `tls12_downgrade_sentinel`.
pub fn downgrade_sentinel() -> (r: [u8; 8])
    ensures
        r@ == tls12_downgrade_sentinel(),
{
    let r: [u8; 8] = [0x44, 0x4f, 0x57, 0x4e, 0x47, 0x52, 0x44, 0x01];
    assert(r@ =~= tls12_downgrade_sentinel());
    r
}

/// The randoms of the two hellos, and which side we are.
#[derive(Clone, Copy, Debug)]
pub struct ConnectionRandoms {
    pub we_are_client: bool,
    pub client: [u8; 32],
    pub server: [u8; 32],
}

impl ConnectionRandoms {
    /// The randoms of the client's and the server's hello.
    pub fn new(client: Random, server: Random, we_are_client: bool) -> (r: Self)
        ensures
            r.we_are_client == we_are_client,
            r.client == client.0,
            r.server == server.0,
    {
        Self { we_are_client, client: client.0, server: server.0 }
    }

    /// True when the server random ends in the downgrade sentinel.
    pub open spec fn marked(&self) -> bool {
        self.server@.skip(24) == tls12_downgrade_sentinel()
    }

    /// Writes the downgrade sentinel over the last eight bytes of the server
    /// random. Only a server does this.
    pub fn set_tls12_downgrade_marker(&mut self)
        requires
            !old(self).we_are_client,
        ensures
            final(self).we_are_client == old(self).we_are_client,
            final(self).client == old(self).client,
            final(self).server@ == old(self).server@.take(24) + tls12_downgrade_sentinel(),
            final(self).marked(),
    {
        let sentinel = downgrade_sentinel();
        let mut i: usize = 0;
        while i < 8
            invariant
                i <= 8,
                sentinel@ == tls12_downgrade_sentinel(),
                self.we_are_client == old(self).we_are_client,
                self.client == old(self).client,
                self.server@.take(24) == old(self).server@.take(24),
                forall|k: int| 0 <= k < i ==> self.server@[24 + k] == sentinel@[k],
            decreases 8 - i,
        {
            let ghost prev = self.server@;
            self.server[24 + i] = sentinel[i];
            assert(self.server@.take(24) =~= prev.take(24));
            i = i + 1;
        }
        assert(self.server@ =~= old(self).server@.take(24) + tls12_downgrade_sentinel());
        assert(self.server@.skip(24) =~= tls12_downgrade_sentinel());
    }

    /// True when the server random ends in the downgrade sentinel. Only a
    /// client asks.
    pub fn has_tls12_downgrade_marker(&mut self) -> (r: bool)
        requires
            old(self).we_are_client,
        ensures
            *final(self) == *old(self),
            r == old(self).marked(),
    {
        // both the server random and the sentinel are
        // public values and don't require constant time comparison
        let sentinel = downgrade_sentinel();
        let mut i: usize = 0;
        while i < 8
            invariant
                i <= 8,
                sentinel@ == tls12_downgrade_sentinel(),
                *self == *old(self),
                forall|k: int| 0 <= k < i ==> self.server@[24 + k] == sentinel@[k],
            decreases 8 - i,
        {
            if self.server[24 + i] != sentinel[i] {
                assert(self.server@.skip(24)[i as int] != tls12_downgrade_sentinel()[i as int]);
                return false;
            }
            i = i + 1;
        }
        assert(self.server@.skip(24) =~= tls12_downgrade_sentinel());
        true
    }
}

/// The two randoms, one after the other.
pub fn join_randoms(first: &[u8; 32], second: &[u8; 32]) -> (r: [u8; 64])
    ensures
        r@ == first@ + second@,
{
    let mut randoms = [0u8;64];
    let mut i: usize = 0;
    while i < 32
        invariant
            i <= 32,
            forall|k: int| 0 <= k < i ==> randoms@[k] == first@[k],
            forall|k: int| 0 <= k < i ==> randoms@[32 + k] == second@[k],
        decreases 32 - i,
    {
        randoms[i] = first[i];
        randoms[32 + i] = second[i];
        i = i + 1;
    }
    assert(randoms@ =~= first@ + second@);
    randoms
}

/// The length of a TLS 1.2 master secret.
pub const MASTER_SECRET_LEN: usize = 48;

/// The length of the verify data of a TLS 1.2 Finished message.
pub const VERIFY_DATA_LEN: usize = 12;

/// TLS1.2 per-connection keying material
pub struct ConnectionSecrets {
    pub randoms: ConnectionRandoms,
    pub suite: Tls12CipherSuite,
    pub master_secret: [u8; 48],
}

/// The seed of a keying-material export: the two randoms and, where there
/// is a context, its 16-bit length and the context.
pub open spec fn export_seed(client: Seq<u8>, server: Seq<u8>, context: Option<Seq<u8>>) -> Seq<u8> {
    match context {
        Some(c) => client + server + u16_bytes(c.len() as u16) + c,
        None => client + server,
    }
}

impl ConnectionSecrets {
    /// The length of the suite's key block: two keys, two fixed IVs, and the
    /// initial explicit nonce.
    pub open spec fn key_block_len(&self) -> nat {
        let bulk = self.suite.common.bulk;
        ((bulk.key_len() + bulk.spec_fixed_iv_len()) * 2 + bulk.spec_explicit_nonce_len()) as nat
    }

    /// The suite's key block: the expansion of the master secret over the
    /// server random followed by the client random.
    pub open spec fn key_block(&self) -> Seq<u8> {
        prf_output(
            self.suite.hmac_algorithm,
            self.master_secret@,
            key_expansion_label(),
            self.randoms.server@ + self.randoms.client@,
            self.key_block_len(),
        )
    }

    /// The verify data of a Finished message for the given handshake hash.
    pub open spec fn verify_data(&self, handshake_hash: Seq<u8>, label: Seq<u8>) -> Seq<u8> {
        prf_output(
            self.suite.hmac_algorithm,
            self.master_secret@,
            label,
            handshake_hash,
            VERIFY_DATA_LEN as nat,
        )
    }

    /// The secrets of a full handshake: the master secret is derived from
    /// the premaster secret `pms` over the client random followed by the
    /// server random.
    pub fn new(randoms: &ConnectionRandoms, suite: Tls12CipherSuite, pms: &[u8]) -> (r: Self)
        ensures
            r.randoms == *randoms,
            r.suite == suite,
            r.master_secret@ == prf_output(
                suite.hmac_algorithm,
                pms@,
                master_secret_label(),
                randoms.client@ + randoms.server@,
                MASTER_SECRET_LEN as nat,
            ),
    {
        let mut master_secret = [0u8;48];
        let joined = join_randoms(&randoms.client, &randoms.server);
        prf(
            &mut master_secret,
            suite.hmac_algorithm,
            pms,
            label_master_secret(),
            joined.as_slice(),
        );
        Self { randoms: *randoms, suite, master_secret }
    }

    /// The secrets of a full handshake with the extended master secret: the
    /// master secret is derived from `pms` over the handshake hash.
    pub fn new_ems(
        randoms: &ConnectionRandoms,
        hs_hash: &[u8],
        suite: Tls12CipherSuite,
        pms: &[u8],
    ) -> (r: Self)
        ensures
            r.randoms == *randoms,
            r.suite == suite,
            r.master_secret@ == prf_output(
                suite.hmac_algorithm,
                pms@,
                extended_master_secret_label(),
                hs_hash@,
                MASTER_SECRET_LEN as nat,
            ),
    {
        let mut master_secret = [0u8;48];
        prf(
            &mut master_secret,
            suite.hmac_algorithm,
            pms,
            label_extended_master_secret(),
            hs_hash,
        );
        Self { randoms: *randoms, suite, master_secret }
    }

    /// The secrets of a resumed session, whose master secret is known.
    pub fn new_resume(
        randoms: &ConnectionRandoms,
        suite: Tls12CipherSuite,
        master_secret: &[u8],
    ) -> (r: Self)
        requires
            master_secret@.len() == MASTER_SECRET_LEN,
        ensures
            r.randoms == *randoms,
            r.suite == suite,
            r.master_secret@ == master_secret@,
    {
        let mut copy = [0u8;48];
        let mut i: usize = 0;
        while i < 48
            invariant
                i <= 48,
                master_secret@.len() == 48,
                forall|k: int| 0 <= k < i ==> copy@[k] == master_secret@[k],
            decreases 48 - i,
        {
            copy[i] = master_secret[i];
            i = i + 1;
        }
        assert(copy@ =~= master_secret@);
        Self { randoms: *randoms, suite, master_secret: copy }
    }

    /// The suite's key block.
    pub fn make_key_block(&self) -> (r: Vec<u8>)
        ensures
            r@ == self.key_block(),
            r@.len() == self.key_block_len(),
    {
        let bulk = self.suite.common.bulk;
        let len = (aead_key_len(bulk) + self.suite.fixed_iv_len()) * 2
            + self.suite.explicit_nonce_len();

        let mut out: Vec<u8> = Vec::new();
        out.resize(len, 0u8);

        // The server random comes first here; for the master secret the
        // client random does.
        let randoms = join_randoms(&self.randoms.server, &self.randoms.client);
        prf(
            out.as_mut_slice(),
            self.suite.hmac_algorithm,
            self.master_secret.as_slice(),
            label_key_expansion(),
            randoms.as_slice(),
        );

        out
    }

    /// The cipher suite that the secrets belong to.
    pub fn suite(&self) -> (r: Tls12CipherSuite)
        ensures
            r == self.suite,
    {
        self.suite
    }

    /// A copy of the master secret.
    pub fn get_master_secret(&self) -> (r: Vec<u8>)
        ensures
            r@ == self.master_secret@,
    {
        let mut ret: Vec<u8> = Vec::new();
        put_bytes(self.master_secret.as_slice(), &mut ret);
        assert(ret@ =~= self.master_secret@);
        ret
    }

    /// The twelve bytes of verify data for the given handshake hash and
    /// label.
    pub fn make_verify_data(&self, handshake_hash: &[u8], label: &[u8]) -> (r: Vec<u8>)
        ensures
            r@ == self.verify_data(handshake_hash@, label@),
            r@.len() == VERIFY_DATA_LEN,
    {
        let mut out: Vec<u8> = Vec::new();
        out.resize(VERIFY_DATA_LEN, 0u8);

        prf(
            out.as_mut_slice(),
            self.suite.hmac_algorithm,
            self.master_secret.as_slice(),
            label,
            handshake_hash,
        );
        out
    }

    /// The verify data of the client's Finished message.
    pub fn client_verify_data(&self, handshake_hash: &[u8]) -> (r: Vec<u8>)
        ensures
            r@ == self.verify_data(handshake_hash@, client_finished_label()),
            r@.len() == VERIFY_DATA_LEN,
    {
        self.make_verify_data(handshake_hash, label_client_finished())
    }

    /// The verify data of the server's Finished message.
    pub fn server_verify_data(&self, handshake_hash: &[u8]) -> (r: Vec<u8>)
        ensures
            r@ == self.verify_data(handshake_hash@, server_finished_label()),
            r@.len() == VERIFY_DATA_LEN,
    {
        self.make_verify_data(handshake_hash, label_server_finished())
    }

    /// Fills `output` with keying material for the given label and
    /// context, derived from the master secret over the two randoms.
    pub fn export_keying_material(&self, output: &mut [u8], label: &[u8], context: Option<&[u8]>)
        requires
            context matches Some(c) ==> c@.len() <= 0xffff,
        ensures
            final(output)@.len() == old(output)@.len(),
            final(output)@ == prf_output(
                self.suite.hmac_algorithm,
                self.master_secret@,
                label@,
                export_seed(
                    self.randoms.client@,
                    self.randoms.server@,
                    match context {
                        Some(c) => Some(c@),
                        None => None,
                    },
                ),
                old(output)@.len(),
            ),
    {
        let mut randoms: Vec<u8> = Vec::new();
        put_bytes(self.randoms.client.as_slice(), &mut randoms);
        put_bytes(self.randoms.server.as_slice(), &mut randoms);
        match context {
            Some(context) => {
                put_u16(context.len() as u16, &mut randoms);
                put_bytes(context, &mut randoms);
                assert(randoms@ =~= self.randoms.client@ + self.randoms.server@ + u16_bytes(
                    context@.len() as u16,
                ) + context@);
            },
            None => {
                assert(randoms@ =~= self.randoms.client@ + self.randoms.server@);
            },
        }

        prf(
            output,
            self.suite.hmac_algorithm,
            self.master_secret.as_slice(),
            label,
            randoms.as_slice(),
        )
    }
}

/// The number of bytes that the write-side buffers admit unless told
/// otherwise.
pub const DEFAULT_BUFFER_LIMIT: usize = 64 * 1024;

/// Whether the buffer limit applies to a write.
enum Limit {
    Yes,
    No,
}

/// The plaintext record that carries an alert.
pub open spec fn alert_record(level: AlertLevel, desc: AlertDescription) -> RecordView {
    RecordView {
        typ: ContentType::Alert,
        version: ProtocolVersion::TLSv1_2,
        payload: seq![level.wire(), desc.wire()],
    }
}

/// The mathematical value of a [`CommonState`].
pub ghost struct CommonStateView<Data> {
    pub data: Data,
    pub negotiated_version: Option<ProtocolVersion>,
    pub is_client: bool,
    pub record_layer: RecordLayerView,
    pub suite: Option<SupportedCipherSuite>,
    pub alpn_protocol: Option<Seq<u8>>,
    pub aligned_handshake: bool,
    pub traffic: bool,
    pub early_traffic: bool,
    pub sent_fatal_alert: bool,
    pub max_fragment_len: nat,
    pub received_plaintext: ChunkVecBufferView,
    pub sendable_plaintext: ChunkVecBufferView,
    pub sendable_tls: ChunkVecBufferView,
}

impl<Data> CommonStateView<Data> {
    /// What holds of every connection: the largest payload of a fragment
    /// lies between 27 and 16384 bytes. So an alert always goes out as one
    /// record, and data that is written gives at least one record.
    pub open spec fn sized(self) -> bool {
        27 <= self.max_fragment_len <= MAX_FRAGMENT_LEN
    }

    /// True when TLS 1.3 has been negotiated.
    pub open spec fn is_tls13(self) -> bool {
        self.negotiated_version == Some(ProtocolVersion::TLSv1_3)
    }

    /// True when outgoing records are protected.
    pub open spec fn encrypting(self) -> bool {
        self.record_layer.write.active()
    }

    /// The state after the bytes of `rec` were queued for the transport.
    pub open spec fn queued(self, rec: RecordView) -> Self {
        CommonStateView { sendable_tls: self.sendable_tls.appended(rec.encoding()), ..self }
    }

    /// The state after `frag` was protected under the next sequence number
    /// and queued. Once the sequence numbers are used up the fragment is
    /// dropped and nothing changes.
    pub open spec fn protected_queued(self, frag: RecordView) -> Self {
        let w = self.record_layer.write;
        if w.seq >= SEQ_HARD_LIMIT {
            self
        } else {
            CommonStateView {
                record_layer: RecordLayerView { write: w.advanced(), ..self.record_layer },
                ..self
            }.queued(w.cipher->0.encrypted(w.seq, frag))
        }
    }

    /// The state after one fragment was sent protected: when the sequence
    /// numbers are nearly used up, a close_notify alert goes out before it.
    pub open spec fn fragment_sent(self, frag: RecordView) -> Self {
        let first = if self.record_layer.write.seq >= SEQ_SOFT_LIMIT {
            self.protected_queued(alert_record(AlertLevel::Warning, AlertDescription::CloseNotify))
        } else {
            self
        };
        first.protected_queued(frag)
    }

    /// The state after the fragments were sent protected, in order.
    pub open spec fn fragments_sent(self, frags: Seq<RecordView>) -> Self
        decreases frags.len(),
    {
        if frags.len() == 0 {
            self
        } else {
            self.fragment_sent(frags[0]).fragments_sent(frags.skip(1))
        }
    }

    /// The state after the fragments were queued as they are, in order.
    pub open spec fn fragments_queued(self, frags: Seq<RecordView>) -> Self
        decreases frags.len(),
    {
        if frags.len() == 0 {
            self
        } else {
            self.queued(frags[0]).fragments_queued(frags.skip(1))
        }
    }

    /// The state after the record `m` was fragmented and sent, protected or
    /// not.
    pub open spec fn msg_sent(self, m: RecordView, must_encrypt: bool) -> Self {
        let frags = fragments(m, self.max_fragment_len);
        if must_encrypt {
            self.fragments_sent(frags)
        } else {
            self.fragments_queued(frags)
        }
    }

    /// The state after an alert was sent: protected when outgoing records
    /// are protected.
    pub open spec fn alert_sent(self, level: AlertLevel, desc: AlertDescription) -> Self {
        self.msg_sent(alert_record(level, desc), self.encrypting())
    }

    /// The state after a fatal alert was sent.
    pub open spec fn fatal_alert_sent(self, desc: AlertDescription) -> Self {
        CommonStateView { sent_fatal_alert: true, ..self.alert_sent(AlertLevel::Fatal, desc) }
    }

    /// The state after application data was cut into pieces and sent
    /// protected. No data gives no record.
    pub open spec fn appdata_sent(self, payload: Seq<u8>) -> Self {
        self.fragments_sent(
            pieces_as_records(
                ContentType::ApplicationData,
                ProtocolVersion::TLSv1_2,
                chunked(payload, self.max_fragment_len),
            ),
        )
    }

    /// The state after each of the chunks was sent as application data.
    pub open spec fn chunks_sent(self, chunks: Seq<Seq<u8>>) -> Self
        decreases chunks.len(),
    {
        if chunks.len() == 0 {
            self
        } else {
            self.appdata_sent(chunks[0]).chunks_sent(chunks.skip(1))
        }
    }

    /// True when plaintext that is written goes out protected at once: the
    /// handshake is complete and outgoing records are protected.
    pub open spec fn sends_at_once(self) -> bool {
        self.traffic && self.encrypting()
    }

    /// The state after the plaintext that was buffered during the handshake
    /// was sent. Nothing happens before plaintext goes out at once.
    pub open spec fn flushed(self) -> Self {
        if self.sends_at_once() {
            (CommonStateView {
                sendable_plaintext: ChunkVecBufferView {
                    chunks: Seq::empty(),
                    ..self.sendable_plaintext
                },
                ..self
            }).chunks_sent(self.sendable_plaintext.chunks)
        } else {
            self
        }
    }

    /// How many bytes of a write of `data` are taken, with the buffer limit
    /// in force or not.
    pub open spec fn plain_taken(self, data: Seq<u8>, limited: bool) -> nat {
        if !limited {
            data.len()
        } else if self.sends_at_once() {
            admitted(self.sendable_tls.limit, self.sendable_tls.held(), data.len())
        } else {
            admitted(self.sendable_plaintext.limit, self.sendable_plaintext.held(), data.len())
        }
    }

    /// The state after a write of `data`: before plaintext goes out at once,
    /// what is taken is buffered; from then on it is sent protected.
    pub open spec fn plain_sent(self, data: Seq<u8>, limited: bool) -> Self {
        let taken = data.take(self.plain_taken(data, limited) as int);
        if self.sends_at_once() {
            self.appdata_sent(taken)
        } else {
            CommonStateView { sendable_plaintext: self.sendable_plaintext.appended(taken), ..self }
        }
    }

    /// The state after the buffers were written one after the other, each
    /// with the buffer limit in force.
    pub open spec fn all_plain_sent(self, bufs: Seq<Seq<u8>>) -> Self
        decreases bufs.len(),
    {
        if bufs.len() == 0 {
            self
        } else {
            self.plain_sent(bufs[0], true).all_plain_sent(bufs.skip(1))
        }
    }

    /// How many bytes were taken in all when the buffers were written one
    /// after the other.
    pub open spec fn all_plain_taken(self, bufs: Seq<Seq<u8>>) -> nat
        decreases bufs.len(),
    {
        if bufs.len() == 0 {
            0
        } else {
            self.plain_taken(bufs[0], true) + self.plain_sent(bufs[0], true).all_plain_taken(
                bufs.skip(1),
            )
        }
    }

    /// True when `self` differs from `before` at most in the sequence number
    /// for outgoing records and in what is queued for the transport.
    pub open spec fn only_sent(self, before: Self) -> bool {
        self == (CommonStateView {
            record_layer: RecordLayerView {
                write: crate::record_layer::DirectionView {
                    seq: self.record_layer.write.seq,
                    ..before.record_layer.write
                },
                ..before.record_layer
            },
            sendable_tls: ChunkVecBufferView {
                chunks: self.sendable_tls.chunks,
                ..before.sendable_tls
            },
            ..before
        })
    }
}

/// One fragment sent protected below the soft limit of the sequence numbers
/// adds exactly one chunk to what waits for the transport: the record that
/// protects the fragment under the sequence number as it stood, which then
/// advances by exactly one. From the hard limit on nothing is emitted and
/// nothing changes: the sequence number never wraps.
pub proof fn lemma_fragment_sent<Data>(s: CommonStateView<Data>, frag: RecordView)
    ensures
        s.record_layer.write.seq < SEQ_SOFT_LIMIT ==> {
            let w = s.record_layer.write;
            let after = s.fragment_sent(frag);
            &&& after == (CommonStateView {
                record_layer: RecordLayerView { write: w.advanced(), ..s.record_layer },
                sendable_tls: ChunkVecBufferView {
                    chunks: s.sendable_tls.chunks.push(w.cipher->0.encrypted(w.seq, frag).encoding()),
                    ..s.sendable_tls
                },
                ..s
            })
            &&& after.record_layer.write.seq == w.seq + 1
            &&& after.record_layer.write.epoch == w.epoch
        },
        s.record_layer.write.seq >= SEQ_HARD_LIMIT ==> s.fragment_sent(frag) == s,
{
    let w = s.record_layer.write;
    if w.seq < SEQ_SOFT_LIMIT {
        let rec = w.cipher->0.encrypted(w.seq, frag);
        assert(rec.encoding().len() > 0);
    }
}

/// An alert always goes out as one record: queued as it is where outgoing
/// records are not protected, and sent as one protected fragment where they
/// are. Unprotected it adds the seven bytes of the alert record to what
/// waits for the transport.
pub proof fn lemma_alert_sent<Data>(s: CommonStateView<Data>, level: AlertLevel, desc: AlertDescription)
    requires
        s.sized(),
    ensures
        !s.encrypting() ==> s.alert_sent(level, desc) == (CommonStateView {
            sendable_tls: ChunkVecBufferView {
                chunks: s.sendable_tls.chunks.push(
                    seq![0x15u8, 0x03u8, 0x03u8, 0x00u8, 0x02u8, level.wire(), desc.wire()],
                ),
                ..s.sendable_tls
            },
            ..s
        }),
        s.encrypting() ==> s.alert_sent(level, desc) == s.fragment_sent(alert_record(level, desc)),
        s.fatal_alert_sent(desc).sent_fatal_alert,
{
    let m = alert_record(level, desc);
    let frags = fragments(m, s.max_fragment_len);
    assert(frags =~= seq![m]);
    assert(frags.skip(1) =~= Seq::<RecordView>::empty());
    assert(frags[0] == m);
    if s.encrypting() {
        let next = s.fragment_sent(m);
        assert(next.fragments_sent(frags.skip(1)) == next);
        assert(s.fragments_sent(frags) == next);
    } else {
        let next = s.queued(m);
        assert(next.fragments_queued(frags.skip(1)) == next);
        assert(s.fragments_queued(frags) == next);
        assert(m.encoding() =~= seq![
            0x15u8,
            0x03u8,
            0x03u8,
            0x00u8,
            0x02u8,
            level.wire(),
            desc.wire(),
        ]);
    }
}

/// Once plaintext goes out at once, a write of data that fits in one
/// fragment and that the limit admits is sent as one protected record of
/// application data; nothing is buffered, and bytes wait for the transport.
pub proof fn lemma_write_sent<Data>(s: CommonStateView<Data>, data: Seq<u8>)
    requires
        s.sized(),
        s.sends_at_once(),
        0 < data.len() <= s.max_fragment_len,
        s.plain_taken(data, true) == data.len(),
        s.record_layer.write.seq < SEQ_SOFT_LIMIT,
    ensures
        s.plain_sent(data, true) == s.fragment_sent(
            RecordView {
                typ: ContentType::ApplicationData,
                version: ProtocolVersion::TLSv1_2,
                payload: data,
            },
        ),
        s.plain_sent(data, true).sendable_plaintext == s.sendable_plaintext,
        s.plain_sent(data, true).sendable_tls.chunks.len() == s.sendable_tls.chunks.len() + 1,
        s.plain_sent(data, true).sendable_tls.total() > 0,
{
    let m = RecordView {
        typ: ContentType::ApplicationData,
        version: ProtocolVersion::TLSv1_2,
        payload: data,
    };
    assert(data.take(data.len() as int) =~= data);
    assert(chunked(data, s.max_fragment_len) =~= seq![data]);
    let frags = pieces_as_records(
        ContentType::ApplicationData,
        ProtocolVersion::TLSv1_2,
        chunked(data, s.max_fragment_len),
    );
    assert(frags =~= seq![m]);
    assert(frags.skip(1) =~= Seq::<RecordView>::empty());
    assert(frags[0] == m);
    let next = s.fragment_sent(m);
    assert(next.fragments_sent(frags.skip(1)) == next);
    assert(s.fragments_sent(frags) == next);
    lemma_fragment_sent(s, m);
    let w = s.record_layer.write;
    let enc = w.cipher->0.encrypted(w.seq, m).encoding();
    assert(enc.len() > 0);
    s.sendable_tls.chunks.lemma_flatten_push(enc);
}

/// Before plaintext goes out at once, writes are admitted up to the buffer
/// limit and no further: with a limit of `limit` bytes, writes of more
/// bytes in all than the buffer has room for are taken up to exactly that
/// room, however they are cut, and the rest is refused.
pub proof fn lemma_buffer_limit<Data>(s: CommonStateView<Data>, limit: usize, bufs: Seq<Seq<u8>>)
    requires
        !s.sends_at_once(),
        s.sendable_plaintext.limit == Some(limit),
        s.sendable_plaintext.total() <= limit,
    ensures
        s.all_plain_taken(bufs) == if bufs.flatten().len() <= limit - s.sendable_plaintext.total() {
            bufs.flatten().len()
        } else {
            (limit - s.sendable_plaintext.total()) as nat
        },
        s.all_plain_sent(bufs).sendable_plaintext.total() == s.sendable_plaintext.total()
            + s.all_plain_taken(bufs),
        s.all_plain_sent(bufs).sendable_tls == s.sendable_tls,
    decreases bufs.len(),
{
    if bufs.len() == 0 {
        assert(bufs.flatten() =~= Seq::<u8>::empty());
    } else {
        let taken = s.plain_taken(bufs[0], true);
        let next = s.plain_sent(bufs[0], true);
        let piece = bufs[0].take(taken as int);
        assert(piece.len() == taken);
        if taken > 0 {
            s.sendable_plaintext.chunks.lemma_flatten_push(piece);
        }
        assert(next.sendable_plaintext.total() == s.sendable_plaintext.total() + taken);
        lemma_buffer_limit(next, limit, bufs.skip(1));
        assert(bufs.drop_first() == bufs.skip(1));
        assert(bufs.flatten() == bufs[0] + bufs.skip(1).flatten());
    }
}

/// Sending fragments protected changes nothing but the sequence number for
/// outgoing records and what is queued for the transport.
pub proof fn lemma_fragments_sent_frame<Data>(s: CommonStateView<Data>, frags: Seq<RecordView>)
    ensures
        s.fragments_sent(frags).only_sent(s),
    decreases frags.len(),
{
    if frags.len() > 0 {
        let next = s.fragment_sent(frags[0]);
        assert(next.only_sent(s));
        lemma_fragments_sent_frame(next, frags.skip(1));
    }
}

/// Queueing fragments changes nothing but what is queued for the transport.
pub proof fn lemma_fragments_queued_frame<Data>(s: CommonStateView<Data>, frags: Seq<RecordView>)
    ensures
        s.fragments_queued(frags).only_sent(s),
        s.fragments_queued(frags).record_layer == s.record_layer,
    decreases frags.len(),
{
    if frags.len() > 0 {
        lemma_fragments_queued_frame(s.queued(frags[0]), frags.skip(1));
    }
}

/// The state that a connection's two sides have in common: what was
/// negotiated, the record layer, the fragmenter, and the three buffers.
pub struct CommonState<Data> {
    pub data: Data,
    negotiated_version: Option<ProtocolVersion>,
    is_client: bool,
    record_layer: RecordLayer,
    suite: Option<SupportedCipherSuite>,
    alpn_protocol: Option<Vec<u8>>,
    aligned_handshake: bool,
    traffic: bool,
    early_traffic: bool,
    sent_fatal_alert: bool,
    message_fragmenter: MessageFragmenter,
    received_plaintext: ChunkVecBuffer,
    sendable_plaintext: ChunkVecBuffer,
    sendable_tls: ChunkVecBuffer,
}

impl<Data> View for CommonState<Data> {
    type V = CommonStateView<Data>;

    closed spec fn view(&self) -> CommonStateView<Data> {
        CommonStateView {
            data: self.data,
            negotiated_version: self.negotiated_version,
            is_client: self.is_client,
            record_layer: self.record_layer@,
            suite: self.suite,
            alpn_protocol: match self.alpn_protocol {
                Some(p) => Some(p@),
                None => None,
            },
            aligned_handshake: self.aligned_handshake,
            traffic: self.traffic,
            early_traffic: self.early_traffic,
            sent_fatal_alert: self.sent_fatal_alert,
            max_fragment_len: self.message_fragmenter.max_len(),
            received_plaintext: self.received_plaintext@,
            sendable_plaintext: self.sendable_plaintext@,
            sendable_tls: self.sendable_tls@,
        }
    }
}

impl<Data> CommonState<Data> {
    /// The state of a connection that has exchanged nothing yet. Fails with
    /// `BadMaxFragmentSize` where the maximum fragment size is neither
    /// `None` nor between 32 and 16384.
    pub fn new(data: Data, max_fragment_size: Option<usize>, is_client: bool) -> (r: Result<
        Self,
        Error,
    >)
        ensures
            match r {
                Ok(s) => MessageFragmenter::max_len_for(max_fragment_size) is Some && s@ == (
                CommonStateView {
                    data,
                    negotiated_version: None,
                    is_client,
                    record_layer: RecordLayerView {
                        write: crate::record_layer::DirectionView::unkeyed(),
                        read: crate::record_layer::DirectionView::unkeyed(),
                    },
                    suite: None,
                    alpn_protocol: None,
                    aligned_handshake: true,
                    traffic: false,
                    early_traffic: false,
                    sent_fatal_alert: false,
                    max_fragment_len: MessageFragmenter::max_len_for(max_fragment_size)->0,
                    received_plaintext: ChunkVecBufferView { chunks: Seq::empty(), limit: None },
                    sendable_plaintext: ChunkVecBufferView {
                        chunks: Seq::empty(),
                        limit: Some(DEFAULT_BUFFER_LIMIT),
                    },
                    sendable_tls: ChunkVecBufferView {
                        chunks: Seq::empty(),
                        limit: Some(DEFAULT_BUFFER_LIMIT),
                    },
                }) && s@.sized(),
                Err(e) => MessageFragmenter::max_len_for(max_fragment_size) is None && e@
                    == ErrorView::BadMaxFragmentSize,
            },
    {
        let message_fragmenter = match MessageFragmenter::new(max_fragment_size) {
            Ok(f) => f,
            Err(_) => {
                return Err(Error::BadMaxFragmentSize);
            },
        };
        Ok(
            Self {
                data,
                negotiated_version: None,
                is_client,
                record_layer: RecordLayer::new(),
                suite: None,
                alpn_protocol: None,
                aligned_handshake: true,
                traffic: false,
                early_traffic: false,
                sent_fatal_alert: false,
                message_fragmenter,
                received_plaintext: ChunkVecBuffer::new(None),
                sendable_plaintext: ChunkVecBuffer::new(Some(DEFAULT_BUFFER_LIMIT)),
                sendable_tls: ChunkVecBuffer::new(Some(DEFAULT_BUFFER_LIMIT)),
            },
        )
    }

    /// True when TLS 1.3 has been negotiated.
    pub fn is_tls13(&self) -> (r: bool)
        ensures
            r == self@.is_tls13(),
    {
        match self.negotiated_version {
            Some(ProtocolVersion::TLSv1_3) => true,
            _ => false,
        }
    }

    /// The largest payload that a fragment carries.
    pub fn max_fragment_len(&self) -> (r: usize)
        ensures
            r == self@.max_fragment_len,
            27 <= r <= 16384,
            self@.sized(),
    {
        self.message_fragmenter.max_fragment_len()
    }

    /// True when we are the client of the connection.
    pub fn is_client(&self) -> (r: bool)
        ensures
            r == self@.is_client,
    {
        self.is_client
    }

    /// True once the handshake is complete.
    pub fn is_traffic(&self) -> (r: bool)
        ensures
            r == self@.traffic,
    {
        self.traffic
    }

    /// True when outgoing records are protected.
    pub fn is_encrypting(&self) -> (r: bool)
        ensures
            r == self@.encrypting(),
    {
        self.record_layer.is_encrypting()
    }

    /// True when incoming records are expected to be protected.
    pub fn is_decrypting(&self) -> (r: bool)
        ensures
            r == self@.record_layer.read.active(),
    {
        self.record_layer.is_decrypting()
    }

    /// True once a fatal alert was sent.
    pub fn has_sent_fatal_alert(&self) -> (r: bool)
        ensures
            r == self@.sent_fatal_alert,
    {
        self.sent_fatal_alert
    }

    /// The protocol version agreed with the peer, once there is one.
    pub fn negotiated_version(&self) -> (r: Option<ProtocolVersion>)
        ensures
            r == self@.negotiated_version,
    {
        self.negotiated_version
    }

    /// Records the protocol version agreed with the peer.
    pub fn set_negotiated_version(&mut self, version: ProtocolVersion)
        ensures
            final(self)@ == (CommonStateView { negotiated_version: Some(version), ..old(self)@ }),
    {
        self.negotiated_version = Some(version);
    }

    /// Records the cipher suite agreed with the peer.
    pub fn set_suite(&mut self, suite: SupportedCipherSuite)
        ensures
            final(self)@ == (CommonStateView { suite: Some(suite), ..old(self)@ }),
    {
        self.suite = Some(suite);
    }

    /// Records the protocol agreed with the peer via ALPN, or that none was.
    pub fn set_alpn_protocol(&mut self, protocol: Option<Vec<u8>>)
        ensures
            final(self)@ == (CommonStateView {
                alpn_protocol: match protocol {
                    Some(p) => Some(p@),
                    None => None,
                },
                ..old(self)@
            }),
    {
        self.alpn_protocol = protocol;
    }

    /// Says whether early data may be sent.
    pub fn set_early_traffic(&mut self, early_traffic: bool)
        ensures
            final(self)@ == (CommonStateView { early_traffic, ..old(self)@ }),
    {
        self.early_traffic = early_traffic;
    }

    /// Notes whether the joiner holds no part of a handshake message.
    fn set_aligned_handshake(&mut self, aligned: bool)
        ensures
            final(self)@ == (CommonStateView { aligned_handshake: aligned, ..old(self)@ }),
    {
        self.aligned_handshake = aligned;
    }

    /// The protocol agreed with the peer via ALPN, if one was.
    pub fn alpn_protocol(&self) -> (r: Option<&[u8]>)
        ensures
            match r {
                Some(p) => self@.alpn_protocol == Some(p@),
                None => self@.alpn_protocol is None,
            },
    {
        match &self.alpn_protocol {
            Some(p) => Some(p.as_slice()),
            None => None,
        }
    }

    /// The plaintext that waits to be read, for the reader to take from.
    fn received_plaintext_mut(&mut self) -> (r: &mut ChunkVecBuffer)
        ensures
            r@ == old(self)@.received_plaintext,
            final(self)@ == (CommonStateView { received_plaintext: final(r)@, ..old(self)@ }),
    {
        &mut self.received_plaintext
    }

    /// The records that wait to be written to the transport.
    pub fn sendable_tls(&self) -> (r: &ChunkVecBuffer)
        ensures
            r@ == self@.sendable_tls,
    {
        &self.sendable_tls
    }

    /// Says that `used` bytes of what waits for the transport were written:
    /// they are dropped from the front of the queue.
    pub fn tls_written(&mut self, used: usize)
        ensures
            final(self)@ == (CommonStateView {
                sendable_tls: ChunkVecBufferView {
                    chunks: consumed(old(self)@.sendable_tls.chunks, used as nat),
                    ..old(self)@.sendable_tls
                },
                ..old(self)@
            }),
    {
        self.sendable_tls.consume(used);
    }

    /// Changing the keys must not span any fragmented handshake
    /// messages.  Otherwise the defragmented messages will have
    /// been protected with two different record layer protections,
    /// which is illegal. A state that is about to change keys asks here:
    /// where the joiner held part of a message, the answer is a fatal
    /// `unexpected_message` alert and a protocol violation.
    pub fn check_aligned_handshake(&mut self) -> (r: Result<(), Error>)
        ensures
            old(self)@.aligned_handshake ==> r is Ok && final(self)@ == old(self)@,
            !old(self)@.aligned_handshake ==> final(self)@ == old(self)@.fatal_alert_sent(
                AlertDescription::UnexpectedMessage,
            ),
            !old(self)@.aligned_handshake ==> (r matches Err(e) && e@
                == ErrorView::PeerMisbehavedError(
                "key epoch or handshake flight with pending fragment"@,
            )),
            final(self)@.sized(),
    {
        let r = if !self.aligned_handshake {
            self.send_fatal_alert(AlertDescription::UnexpectedMessage);
            Err(Error::peer_misbehaved("key epoch or handshake flight with pending fragment"))
        } else {
            Ok(())
        };
        proof {
            use_type_invariant(&self.message_fragmenter);
            self.message_fragmenter.lemma_bounded();
        }
        r
    }

    /// Sends a fatal `illegal_parameter` alert, and gives the protocol
    /// violation that says why.
    pub fn illegal_param(&mut self, why: &str) -> (r: Error)
        ensures
            final(self)@ == old(self)@.fatal_alert_sent(AlertDescription::IllegalParameter),
            r@ == ErrorView::PeerMisbehavedError(why@),
            final(self)@.sized(),
    {
        self.send_fatal_alert(AlertDescription::IllegalParameter);
        Error::peer_misbehaved(why)
    }

    /// The cipher suite agreed with the peer, once there is one.
    pub fn get_suite(&self) -> (r: Option<SupportedCipherSuite>)
        ensures
            r == self@.suite,
    {
        self.suite
    }

    /// The state after an incoming record was offered for opening: when the
    /// sequence numbers for incoming records are nearly used up, a
    /// close_notify alert goes out first; a record that is oversized is
    /// answered with a fatal `record_overflow` alert, one that does not open
    /// with a fatal `bad_record_mac` alert.
    pub open spec fn incoming_handled(s: CommonStateView<Data>, rec: RecordView) -> CommonStateView<
        Data,
    > {
        let first = if s.record_layer.read.seq >= SEQ_SOFT_LIMIT {
            s.alert_sent(AlertLevel::Warning, AlertDescription::CloseNotify)
        } else {
            s
        };
        match RecordLayer::incoming(first.record_layer, rec) {
            Ok(_) => CommonStateView {
                record_layer: RecordLayerView {
                    read: first.record_layer.read.advanced(),
                    ..first.record_layer
                },
                ..first
            },
            Err(ErrorView::PeerSentOversizedRecord) => first.fatal_alert_sent(
                AlertDescription::RecordOverflow,
            ),
            Err(ErrorView::DecryptError) => first.fatal_alert_sent(AlertDescription::BadRecordMac),
            Err(_) => first,
        }
    }

    /// The plaintext record that an incoming record carries, or the error.
    pub open spec fn incoming_result(s: CommonStateView<Data>, rec: RecordView) -> Result<
        RecordView,
        ErrorView,
    > {
        let first = if s.record_layer.read.seq >= SEQ_SOFT_LIMIT {
            s.alert_sent(AlertLevel::Warning, AlertDescription::CloseNotify)
        } else {
            s
        };
        RecordLayer::incoming(first.record_layer, rec)
    }

    /// Opens an incoming record, and answers one that is refused with the
    /// alert that fits.
    pub fn decrypt_incoming(&mut self, encr: OpaqueMessage) -> (r: Result<PlainMessage, Error>)
        requires
            old(self)@.record_layer.read.active(),
        ensures
            final(self)@ == Self::incoming_handled(old(self)@, encr@),
            match r {
                Ok(p) => Self::incoming_result(old(self)@, encr@) == Ok::<RecordView, ErrorView>(p@),
                Err(e) => Self::incoming_result(old(self)@, encr@) == Err::<RecordView, ErrorView>(
                    e@,
                ),
            },
    {
        self.close_before_decrypt();
        let ghost first = self@;
        let rc = self.record_layer.decrypt_incoming(encr);
        assert(self@ == (CommonStateView { record_layer: self@.record_layer, ..first }));
        match &rc {
            Err(Error::PeerSentOversizedRecord) => {
                assert(self@ == first);
                self.send_fatal_alert(AlertDescription::RecordOverflow);
            },
            Err(Error::DecryptError) => {
                assert(self@ == first);
                self.send_fatal_alert(AlertDescription::BadRecordMac);
            },
            Err(_) => {
                assert(self@ == first);
            },
            Ok(_) => {},
        }
        rc
    }

    /// Sends a close_notify alert when the sequence numbers for incoming
    /// records are nearly used up.
    fn close_before_decrypt(&mut self)
        ensures
            final(self)@ == if old(self)@.record_layer.read.seq >= SEQ_SOFT_LIMIT {
                old(self)@.alert_sent(AlertLevel::Warning, AlertDescription::CloseNotify)
            } else {
                old(self)@
            },
            final(self)@.record_layer.read == old(self)@.record_layer.read,
    {
        if self.record_layer.wants_close_before_decrypt() {
            self.send_close_notify();
        }
    }

    /// Fragment `m`, encrypt the fragments, and then queue
    /// the encrypted fragments for sending.
    pub fn send_msg_encrypt(&mut self, m: PlainMessage)
        requires
            old(self)@.encrypting(),
        ensures
            final(self)@ == old(self)@.msg_sent(m@, true),
            final(self)@.only_sent(old(self)@),
            final(self)@.encrypting(),
    {
        let mut plain_messages: VecDeque<PlainMessage> = VecDeque::new();
        self.message_fragmenter.fragment(m, &mut plain_messages);
        let ghost frags = plain_messages@.map_values(|m: PlainMessage| m@);
        proof {
            assert(frags =~= fragments(m@, old(self)@.max_fragment_len));
            lemma_fragments_sent_frame(old(self)@, frags);
            assert(frags.skip(0) =~= frags);
        }
        let max = self.message_fragmenter.max_fragment_len();

        let mut i: usize = 0;
        while i < plain_messages.len()
            invariant
                i <= plain_messages@.len(),
                frags == plain_messages@.map_values(|m: PlainMessage| m@),
                frags == fragments(m@, old(self)@.max_fragment_len),
                max == old(self)@.max_fragment_len,
                0 < max <= MAX_FRAGMENT_LEN,
                self@.encrypting(),
                self@.only_sent(old(self)@),
                self@.fragments_sent(frags.skip(i as int)) == old(self)@.fragments_sent(frags),
            decreases plain_messages@.len() - i,
        {
            proof {
                crate::msgs::fragmenter::lemma_fragments_bounded(m@, max as nat);
                assert(frags[i as int] == plain_messages@[i as int]@);
                assert(frags.skip(i as int).skip(1) =~= frags.skip(i + 1));
                assert(frags.skip(i as int)[0] == frags[i as int]);
            }
            self.send_single_fragment(plain_messages[i].borrow());
            i = i + 1;
        }
    }

    /// Like send_msg_encrypt, but operate on an appdata directly.
    fn send_appdata_encrypt(&mut self, payload: &[u8], limit: Limit) -> (len: usize)
        requires
            old(self)@.encrypting(),
        ensures
            len == match limit {
                Limit::Yes => admitted(
                    old(self)@.sendable_tls.limit,
                    old(self)@.sendable_tls.held(),
                    payload@.len(),
                ),
                Limit::No => payload@.len(),
            },
            final(self)@ == old(self)@.appdata_sent(payload@.take(len as int)),
            final(self)@.only_sent(old(self)@),
            final(self)@.encrypting(),
    {
        // Here, the limit on sendable_tls applies to encrypted data,
        // but we're respecting it for plaintext data -- so we'll
        // be out by whatever the cipher+record overhead is.  That's a
        // constant and predictable amount, so it's not a terrible issue.
        let len = match limit {
            Limit::Yes => self.sendable_tls.apply_limit(payload.len()),
            Limit::No => payload.len(),
        };

        let mut plain_messages: VecDeque<BorrowedPlainMessage<'_>> = VecDeque::new();
        let taken = vstd::slice::slice_subrange(payload, 0, len);
        assert(taken@ =~= payload@.take(len as int));
        self.message_fragmenter.fragment_borrow(
            ContentType::ApplicationData,
            ProtocolVersion::TLSv1_2,
            taken,
            &mut plain_messages,
        );
        let ghost frags = plain_messages@.map_values(|m: BorrowedPlainMessage<'_>| m@);
        let ghost all = pieces_as_records(
            ContentType::ApplicationData,
            ProtocolVersion::TLSv1_2,
            chunked(taken@, old(self)@.max_fragment_len),
        );
        proof {
            assert(frags =~= all);
            lemma_fragments_sent_frame(old(self)@, frags);
            assert(frags.skip(0) =~= frags);
        }
        let max = self.message_fragmenter.max_fragment_len();

        let mut i: usize = 0;
        while i < plain_messages.len()
            invariant
                i <= plain_messages@.len(),
                frags == plain_messages@.map_values(|m: BorrowedPlainMessage<'_>| m@),
                frags == all,
                all == pieces_as_records(
                    ContentType::ApplicationData,
                    ProtocolVersion::TLSv1_2,
                    chunked(taken@, old(self)@.max_fragment_len),
                ),
                max == old(self)@.max_fragment_len,
                0 < max <= MAX_FRAGMENT_LEN,
                self@.encrypting(),
                self@.only_sent(old(self)@),
                self@.fragments_sent(frags.skip(i as int)) == old(self)@.fragments_sent(frags),
            decreases plain_messages@.len() - i,
        {
            proof {
                crate::msgs::fragmenter::lemma_pieces_bounded(
                    ContentType::ApplicationData,
                    ProtocolVersion::TLSv1_2,
                    taken@,
                    max as nat,
                );
                assert(frags[i as int] == plain_messages@[i as int]@);
                assert(frags.skip(i as int).skip(1) =~= frags.skip(i + 1));
                assert(frags.skip(i as int)[0] == frags[i as int]);
            }
            self.send_single_fragment(plain_messages[i]);
            i = i + 1;
        }

        len
    }

    /// Protects one fragment under the next sequence number and queues it,
    /// unless the sequence numbers are used up.
    fn encrypt_and_queue(&mut self, m: BorrowedPlainMessage<'_>)
        requires
            old(self)@.encrypting(),
            m@.payload.len() <= MAX_FRAGMENT_LEN,
        ensures
            final(self)@ == old(self)@.protected_queued(m@),
            final(self)@.only_sent(old(self)@),
            final(self)@.encrypting(),
    {
        // Refuse to wrap counter at all costs.
        if self.record_layer.encrypt_exhausted() {
            return ;
        }
        let em = self.record_layer.encrypt_outgoing(m);
        self.queue_tls_message(em);
    }

    /// Sends one fragment protected. When the sequence numbers are nearly
    /// used up, a close_notify alert goes out before it.
    fn send_single_fragment(&mut self, m: BorrowedPlainMessage<'_>)
        requires
            old(self)@.encrypting(),
            m@.payload.len() <= MAX_FRAGMENT_LEN,
        ensures
            final(self)@ == old(self)@.fragment_sent(m@),
            final(self)@.only_sent(old(self)@),
            final(self)@.encrypting(),
    {
        // Close connection once we start to run out of
        // sequence space.
        if self.record_layer.wants_close_before_encrypt() {
            let alert = Message::build_alert(AlertLevel::Warning, AlertDescription::CloseNotify);
            let plain = alert.into_plain();
            assert(plain@ == alert_record(AlertLevel::Warning, AlertDescription::CloseNotify));
            self.encrypt_and_queue(plain.borrow());
        }
        self.encrypt_and_queue(m);
    }

    /// Encrypt and send some plaintext `data`.  `limit` controls
    /// whether the per-connection buffer limits apply.
    ///
    /// Returns the number of bytes written from `data`: this might
    /// be less than `data.len()` if buffer limits were exceeded.
    fn send_plain(&mut self, data: &[u8], limit: Limit) -> (len: usize)
        ensures
            len == old(self)@.plain_taken(data@, limit is Yes),
            final(self)@ == old(self)@.plain_sent(data@, limit is Yes),
            final(self)@.sends_at_once() == old(self)@.sends_at_once(),
            old(self)@.sends_at_once() ==> final(self)@.only_sent(old(self)@),
    {
        if !self.traffic || !self.record_layer.is_encrypting() {
            // If we haven't completed handshaking, buffer
            // plaintext to send once we do.
            let len = match limit {
                Limit::Yes => self.sendable_plaintext.append_limited_copy(data),
                Limit::No => {
                    proof {
                        assert(data@.take(data@.len() as int) =~= data@);
                    }
                    self.sendable_plaintext.append(vstd::slice::slice_to_vec(data))
                },
            };
            return len;
        }
        if data.len() == 0 {
            // Don't send empty fragments.
            proof {
                let none = data@.take(0);
                assert(chunked(none, old(self)@.max_fragment_len) =~= Seq::<Seq<u8>>::empty());
                assert(pieces_as_records(
                    ContentType::ApplicationData,
                    ProtocolVersion::TLSv1_2,
                    Seq::<Seq<u8>>::empty(),
                ) =~= Seq::<RecordView>::empty());
                assert(data@.take(
                    admitted(
                        old(self)@.sendable_tls.limit,
                        old(self)@.sendable_tls.held(),
                        data@.len(),
                    ) as int,
                ) =~= none);
            }
            return 0;
        }
        self.send_appdata_encrypt(data, limit)
    }

    /// Says that the handshake is complete, and sends the plaintext that
    /// was buffered until now where outgoing records are protected.
    pub fn start_traffic(&mut self)
        ensures
            final(self)@ == (CommonStateView { traffic: true, ..old(self)@ }).flushed(),
            final(self)@.sized(),
    {
        self.traffic = true;
        self.flush_plaintext();
        proof {
            use_type_invariant(&self.message_fragmenter);
            self.message_fragmenter.lemma_bounded();
        }
    }

    /// Send any buffered plaintext.  Plaintext is buffered if
    /// written during handshake.
    fn flush_plaintext(&mut self)
        ensures
            final(self)@ == old(self)@.flushed(),
    {
        if !self.traffic || !self.record_layer.is_encrypting() {
            return ;
        }
        let ghost start = old(self)@;
        let ghost chunks = start.sendable_plaintext.chunks;
        let mut bufs: Vec<Vec<u8>> = Vec::new();
        proof {
            assert(chunks.skip(0) =~= chunks);
            assert(bufs@.map_values(|b: Vec<u8>| b@) =~= chunks.take(0));
        }
        loop
            invariant
                bufs@.len() <= chunks.len(),
                bufs@.map_values(|b: Vec<u8>| b@) == chunks.take(bufs@.len() as int),
                self@.sendable_plaintext.chunks == chunks.skip(bufs@.len() as int),
                self@ == (CommonStateView { sendable_plaintext: self@.sendable_plaintext, ..start }),
                self@.sendable_plaintext.limit == start.sendable_plaintext.limit,
            ensures
                bufs@.map_values(|b: Vec<u8>| b@) == chunks,
                self@ == (CommonStateView {
                    sendable_plaintext: ChunkVecBufferView {
                        chunks: Seq::empty(),
                        ..start.sendable_plaintext
                    },
                    ..start
                }),
            decreases chunks.len() - bufs@.len(),
        {
            let ghost n = bufs@.len() as int;
            match self.sendable_plaintext.pop() {
                Some(buf) => {
                    proof {
                        assert(chunks.skip(n)[0] == buf@);
                        assert(chunks.skip(n).skip(1) =~= chunks.skip(n + 1));
                        assert(bufs@.push(buf).map_values(|b: Vec<u8>| b@) =~= chunks.take(n + 1));
                    }
                    bufs.push(buf);
                },
                None => {
                    proof {
                        assert(chunks.skip(n).len() == 0);
                        assert(chunks.take(n) =~= chunks);
                        assert(self@.sendable_plaintext.chunks =~= Seq::<Seq<u8>>::empty());
                    }
                    break ;
                },
            }
        }
        let ghost emptied = self@;
        let mut i: usize = 0;
        while i < bufs.len()
            invariant
                i <= bufs@.len(),
                bufs@.map_values(|b: Vec<u8>| b@) == chunks,
                self@.sends_at_once(),
                self@.chunks_sent(chunks.skip(i as int)) == emptied.chunks_sent(chunks),
            decreases bufs@.len() - i,
        {
            proof {
                assert(chunks[i as int] == bufs@[i as int]@);
                assert(chunks.skip(i as int)[0] == chunks[i as int]);
                assert(chunks.skip(i as int).skip(1) =~= chunks.skip(i + 1));
                assert(bufs@[i as int]@.take(bufs@[i as int]@.len() as int) =~= bufs@[i as int]@);
            }
            self.send_plain(bufs[i].as_slice(), Limit::No);
            i = i + 1;
        }
    }

    /// Put m into sendable_tls for writing.
    fn queue_tls_message(&mut self, m: OpaqueMessage)
        requires
            m@.payload.len() <= 0xffff,
        ensures
            final(self)@ == old(self)@.queued(m@),
    {
        self.sendable_tls.append(m.encode());
    }

    /// Send a raw TLS message, fragmenting it if needed.
    pub fn send_msg(&mut self, m: Message, must_encrypt: bool)
        requires
            must_encrypt ==> old(self)@.encrypting(),
        ensures
            final(self)@ == old(self)@.msg_sent(m@.record(), must_encrypt),
            final(self)@.only_sent(old(self)@),
            final(self)@.encrypting() == old(self)@.encrypting(),
            final(self)@.sized(),
    {
        proof {
            use_type_invariant(&self.message_fragmenter);
            self.message_fragmenter.lemma_bounded();
        }
        if !must_encrypt {
            let mut to_send: VecDeque<PlainMessage> = VecDeque::new();
            let plain = m.into_plain();
            let ghost whole = plain@;
            self.message_fragmenter.fragment(plain, &mut to_send);
            let ghost frags = to_send@.map_values(|m: PlainMessage| m@);
            proof {
                assert(frags =~= fragments(whole, old(self)@.max_fragment_len));
                lemma_fragments_queued_frame(old(self)@, frags);
                assert(frags.skip(0) =~= frags);
            }
            let max = self.message_fragmenter.max_fragment_len();
            loop
                invariant
                    frags == fragments(whole, old(self)@.max_fragment_len),
                    max == old(self)@.max_fragment_len,
                    0 < max <= MAX_FRAGMENT_LEN,
                    to_send@.len() <= frags.len(),
                    to_send@.map_values(|m: PlainMessage| m@) == frags.skip(
                        frags.len() - to_send@.len(),
                    ),
                    self@.only_sent(old(self)@),
                    self@.record_layer == old(self)@.record_layer,
                    self@.fragments_queued(to_send@.map_values(|m: PlainMessage| m@)) == old(self)@.fragments_queued(frags),
                ensures
                    self@ == old(self)@.fragments_queued(frags),
                    self@.only_sent(old(self)@),
                    self@.record_layer == old(self)@.record_layer,
                decreases to_send@.len(),
            {
                let ghost left = to_send@.map_values(|m: PlainMessage| m@);
                match to_send.pop_front() {
                    Some(mm) => {
                        proof {
                            crate::msgs::fragmenter::lemma_fragments_bounded(whole, max as nat);
                            assert(left[0] == mm@);
                            assert(left[0] == frags[frags.len() - left.len()]);
                            assert(to_send@.map_values(|m: PlainMessage| m@) =~= left.skip(1));
                            assert(left.skip(1) =~= frags.skip(frags.len() - left.len() + 1));
                        }
                        self.queue_tls_message(mm.into_unencrypted_opaque());
                    },
                    None => {
                        assert(left.len() == 0);
                        break ;
                    },
                }
            }
        } else {
            self.send_msg_encrypt(m.into_plain());
        }
    }

    /// Adds application data from the peer to the plaintext that waits to
    /// be read.
    pub fn take_received_plaintext(&mut self, bytes: Vec<u8>)
        ensures
            final(self)@ == (CommonStateView {
                received_plaintext: old(self)@.received_plaintext.appended(bytes@),
                ..old(self)@
            }),
    {
        self.received_plaintext.append(bytes);
    }

    /// Stages the keyings that the secrets give, for both directions.
    pub fn start_encryption_tls12(&mut self, secrets: &ConnectionSecrets)
        ensures
            final(self)@ == (CommonStateView {
                record_layer: RecordLayerView {
                    write: old(self)@.record_layer.write.keyed(
                        crate::cipher::tls12_ciphers(
                            secrets.key_block(),
                            secrets.suite.common.bulk,
                            secrets.randoms.we_are_client,
                        ).1,
                        crate::record_layer::DirectionState::Prepared,
                    ),
                    read: old(self)@.record_layer.read.keyed(
                        crate::cipher::tls12_ciphers(
                            secrets.key_block(),
                            secrets.suite.common.bulk,
                            secrets.randoms.we_are_client,
                        ).0,
                        crate::record_layer::DirectionState::Prepared,
                    ),
                },
                ..old(self)@
            }),
    {
        let (dec, enc) = crate::cipher::new_tls12(secrets);
        self.record_layer.prepare_message_encrypter(enc);
        self.record_layer.prepare_message_decrypter(dec);
    }

    /// Installs a keying for outgoing records and puts it into force.
    pub fn set_message_encrypter(&mut self, cipher: RecordCipher)
        ensures
            final(self)@ == (CommonStateView {
                record_layer: RecordLayerView {
                    write: old(self)@.record_layer.write.keyed(
                        cipher@,
                        crate::record_layer::DirectionState::Active,
                    ),
                    ..old(self)@.record_layer
                },
                ..old(self)@
            }),
            final(self)@.encrypting(),
    {
        self.record_layer.set_message_encrypter(cipher);
    }

    /// Installs a keying for incoming records and puts it into force.
    pub fn set_message_decrypter(&mut self, cipher: RecordCipher)
        ensures
            final(self)@ == (CommonStateView {
                record_layer: RecordLayerView {
                    read: old(self)@.record_layer.read.keyed(
                        cipher@,
                        crate::record_layer::DirectionState::Active,
                    ),
                    ..old(self)@.record_layer
                },
                ..old(self)@
            }),
            final(self)@.record_layer.read.active(),
    {
        self.record_layer.set_message_decrypter(cipher);
    }

    /// Puts the staged keying for outgoing records into force.
    pub fn start_encrypting(&mut self)
        ensures
            final(self)@.record_layer.read == old(self)@.record_layer.read,
            final(self)@ == (CommonStateView {
                record_layer: final(self)@.record_layer,
                ..old(self)@
            }),
            final(self)@.record_layer.write == if old(self)@.record_layer.write.state
                == crate::record_layer::DirectionState::Prepared {
                crate::record_layer::DirectionView {
                    state: crate::record_layer::DirectionState::Active,
                    ..old(self)@.record_layer.write
                }
            } else {
                old(self)@.record_layer.write
            },
    {
        self.record_layer.start_encrypting();
    }

    /// Puts the staged keying for incoming records into force.
    pub fn start_decrypting(&mut self)
        ensures
            final(self)@.record_layer.write == old(self)@.record_layer.write,
            final(self)@ == (CommonStateView {
                record_layer: final(self)@.record_layer,
                ..old(self)@
            }),
            final(self)@.record_layer.read == if old(self)@.record_layer.read.state
                == crate::record_layer::DirectionState::Prepared {
                crate::record_layer::DirectionView {
                    state: crate::record_layer::DirectionState::Active,
                    ..old(self)@.record_layer.read
                }
            } else {
                old(self)@.record_layer.read
            },
    {
        self.record_layer.start_decrypting();
    }

    /// Sends a warning alert.
    fn send_warning_alert(&mut self, desc: AlertDescription)
        ensures
            final(self)@ == old(self)@.alert_sent(AlertLevel::Warning, desc),
            final(self)@.only_sent(old(self)@),
    {
        self.send_warning_alert_no_log(desc);
    }

    /// Sends a fatal alert, protected when outgoing records are protected,
    /// and notes that one was sent.
    pub fn send_fatal_alert(&mut self, desc: AlertDescription)
        ensures
            final(self)@ == old(self)@.fatal_alert_sent(desc),
            final(self)@.sized(),
    {
        let m = Message::build_alert(AlertLevel::Fatal, desc);
        let must_encrypt = self.record_layer.is_encrypting();
        self.send_msg(m, must_encrypt);
        self.sent_fatal_alert = true;
        proof {
            use_type_invariant(&self.message_fragmenter);
            self.message_fragmenter.lemma_bounded();
        }
    }

    /// Sends a close_notify warning alert, protected when outgoing records
    /// are protected.
    pub fn send_close_notify(&mut self)
        ensures
            final(self)@ == old(self)@.alert_sent(AlertLevel::Warning, AlertDescription::CloseNotify),
            final(self)@.only_sent(old(self)@),
            final(self)@.sized(),
    {
        self.send_warning_alert_no_log(AlertDescription::CloseNotify);
        proof {
            use_type_invariant(&self.message_fragmenter);
            self.message_fragmenter.lemma_bounded();
        }
    }

    /// Sends a warning alert, protected when outgoing records are protected.
    fn send_warning_alert_no_log(&mut self, desc: AlertDescription)
        ensures
            final(self)@ == old(self)@.alert_sent(AlertLevel::Warning, desc),
            final(self)@.only_sent(old(self)@),
    {
        let m = Message::build_alert(AlertLevel::Warning, desc);
        let must_encrypt = self.record_layer.is_encrypting();
        self.send_msg(m, must_encrypt);
    }

    /// True when the connection runs over QUIC. This library runs over a
    /// byte stream only.
    pub fn is_quic(&self) -> (r: bool)
        ensures
            !r,
    {
        false
    }
}

/// One state of the handshake state machine: it takes a message and gives
/// the state that follows, or the error that ends the connection.
pub trait HandleState<Data>: Sized {
    /// True when the state `before`, given `message` with the common state
    /// at `common_before`, can leave the common state at `common_after` and
    /// give `r`. Each state says this for itself; one that says nothing
    /// promises nothing.
    open spec fn handles(
        before: Self,
        common_before: CommonStateView<Data>,
        message: MessageView,
        common_after: CommonStateView<Data>,
        r: Result<Self, Error>,
    ) -> bool {
        true
    }

    /// Takes `message`, acts on the common state, and gives the state
    /// that follows or the error that ends the connection.
    fn handle(self, common: &mut CommonState<Data>, message: Message) -> (r: Result<Self, Error>)
        ensures
            Self::handles(self, old(common)@, message@, final(common)@, r),
    ;
}

impl<Data> CommonState<Data> {
    /// True when `m` asks for a renegotiation that is refused: the
    /// handshake is complete, the version is not TLS 1.3, and the message
    /// is a HelloRequest to a client or a ClientHello to a server.
    pub open spec fn refuses_renegotiation(s: CommonStateView<Data>, m: MessageView) -> bool {
        &&& s.traffic
        &&& !s.is_tls13()
        &&& m.payload matches MessagePayloadView::Handshake { typ, .. }
        &&& typ == if s.is_client {
            HandshakeType::HelloRequest
        } else {
            HandshakeType::ClientHello
        }
    }

    /// The common state after the outcome of a handshake state was taken in:
    /// an error that says the message was not expected is answered with a
    /// fatal `unexpected_message` alert; nothing else changes anything.
    pub open spec fn after_outcome<S>(s: CommonStateView<Data>, outcome: Result<S, Error>) -> CommonStateView<
        Data,
    > {
        match outcome {
            Err(e) if e.spec_is_inappropriate() => s.fatal_alert_sent(
                AlertDescription::UnexpectedMessage,
            ),
            _ => s,
        }
    }

    /// Takes in what a handshake state made of a message: the state that
    /// follows becomes the current one; an error that says the message was
    /// not expected is answered with a fatal `unexpected_message` alert; any
    /// other error goes through as it is.
    pub fn handled<S>(&mut self, outcome: Result<S, Error>, state: &mut Option<S>) -> (r: Result<
        (),
        Error,
    >)
        ensures
            final(self)@ == Self::after_outcome(old(self)@, outcome),
            match outcome {
                Ok(next) => r is Ok && *final(state) == Some(next),
                Err(e) => r == Err::<(), Error>(e) && *final(state) == *old(state),
            },
    {
        match outcome {
            Ok(next) => {
                *state = Some(next);
                Ok(())
            },
            Err(e) => {
                if e.is_inappropriate() {
                    self.send_fatal_alert(AlertDescription::UnexpectedMessage);
                }
                Err(e)
            },
        }
    }

    /// True when processing the message `msg` can take the common state from
    /// `before` to `after` and the handshake state from `state` to
    /// `state_after`, with the result `r`. A renegotiation request after
    /// the handshake is refused with a warning alert and changes nothing
    /// else. Every other message is handed to the current handshake state:
    /// what that state does is its own `handles`, and its outcome is taken
    /// in as `after_outcome` says; the state that follows becomes the
    /// current one, and after an error there is none.
    pub open spec fn main_protocol_done<S: HandleState<Data>>(
        before: CommonStateView<Data>,
        state: Option<S>,
        msg: MessageView,
        after: CommonStateView<Data>,
        state_after: Option<S>,
        r: Result<(), Error>,
    ) -> bool {
        if Self::refuses_renegotiation(before, msg) {
            r is Ok && state_after == state && after == before.alert_sent(
                AlertLevel::Warning,
                AlertDescription::NoRenegotiation,
            )
        } else {
            exists|mid: CommonStateView<Data>, outcome: Result<S, Error>|
                {
                    &&& #[trigger] S::handles(state->0, before, msg, mid, outcome)
                    &&& after == Self::after_outcome(mid, outcome)
                    &&& match outcome {
                        Ok(next) => r is Ok && state_after == Some(next),
                        Err(e) => r == Err::<(), Error>(e) && state_after is None,
                    }
                }
        }
    }

    /// Process `msg`.  A renegotiation request after the handshake is
    /// refused with a warning alert and goes no further. Every other
    /// message is handed to the current state of the handshake, and what
    /// that state makes of it is taken in by `handled`.
    pub fn process_main_protocol<S: HandleState<Data>>(
        &mut self,
        msg: Message,
        state: &mut Option<S>,
    ) -> (r: Result<(), Error>)
        requires
            *old(state) is Some,
        ensures
            Self::main_protocol_done(old(self)@, *old(state), msg@, final(self)@, *final(state), r),
            r is Ok ==> *final(state) is Some,
            old(self)@.sized(),
            final(self)@.sized(),
    {
        proof {
            use_type_invariant(&self.message_fragmenter);
            self.message_fragmenter.lemma_bounded();
        }
        // For TLS1.2, outside of the handshake, send rejection alerts for
        // renegotiation requests.  These can occur any time.
        if self.traffic && !self.is_tls13() {
            let reject_ty = match self.is_client {
                true => HandshakeType::HelloRequest,
                false => HandshakeType::ClientHello,
            };
            if msg.is_handshake_type(reject_ty) {
                self.send_warning_alert(AlertDescription::NoRenegotiation);
                proof {
                use_type_invariant(&self.message_fragmenter);
                self.message_fragmenter.lemma_bounded();
                }
                return Ok(());
            }
        }
        let ghost message = msg@;
        let current = state.take().unwrap();
        let outcome = current.handle(self, msg);
        let ghost mid = self@;
        let r = self.handled(outcome, state);
        proof {
            assert(S::handles((*old(state))->0, old(self)@, message, mid, outcome));
            use_type_invariant(&self.message_fragmenter);
            self.message_fragmenter.lemma_bounded();
        }
        r
    }

    /// Tells a client whether the server's hello is an illegal downgrade:
    /// the client offered TLS 1.3, TLS 1.2 was negotiated, and the server
    /// random ends in the downgrade sentinel. The downgrade is answered
    /// with a fatal `illegal_parameter` alert.
    pub fn reject_downgrade(&mut self, randoms: &mut ConnectionRandoms, offered_tls13: bool) -> (r:
        Result<(), Error>)
        requires
            old(randoms).we_are_client,
        ensures
            *final(randoms) == *old(randoms),
            offered_tls13 && old(randoms).marked() ==> final(self)@ == old(self)@.fatal_alert_sent(
                AlertDescription::IllegalParameter,
            ),
            offered_tls13 && old(randoms).marked() ==> (r matches Err(e) && e@
                == ErrorView::PeerMisbehavedError("downgrade"@)),
            !(offered_tls13 && old(randoms).marked()) ==> r is Ok && final(self)@ == old(self)@,
    {
        if offered_tls13 && randoms.has_tls12_downgrade_marker() {
            Err(self.illegal_param("downgrade"))
        } else {
            Ok(())
        }
    }
}

/// What a record turned out to be.
pub enum MessageType {
    /// Handshake bytes, which went to the joiner.
    Handshake,
    /// A message for the handshake state machine.
    Data(Message),
}

/// What processing a record gives.
pub ghost enum Outcome {
    /// Nothing further is to be done.
    Nothing,
    /// Handshake bytes went to the joiner.
    Handshake,
    /// A message for the handshake state machine.
    Data(MessageView),
    /// The record ends the connection with this error.
    Failed(ErrorView),
}

/// The mathematical value of a [`ConnectionCommon`].
pub ghost struct ConnectionCommonView<Data> {
    pub common_state: CommonStateView<Data>,
    pub peer_eof: bool,
    pub received_middlebox_ccs: bool,
    pub error: Option<ErrorView>,
    pub deframer: DeframerView,
    pub joiner: JoinerView,
}

/// The reason given for a second ChangeCipherSpec during a TLS 1.3 handshake.
pub open spec fn illegal_ccs() -> Seq<char> {
    "illegal middlebox CCS"@
}

impl<Data> ConnectionCommonView<Data> {
    /// What the caller is told after records were processed.
    pub open spec fn io_state(self) -> IoStateView {
        IoStateView {
            tls_bytes_to_write: self.common_state.sendable_tls.held() as usize,
            plaintext_bytes_to_read: self.common_state.received_plaintext.held() as usize,
            peer_has_closed: self.peer_eof,
        }
    }

    /// True when more bytes should be read from the transport: no plaintext
    /// waits to be read, the peer has not closed, and the handshake is
    /// complete or nothing waits to be written.
    pub open spec fn wants_read(self) -> bool {
        self.common_state.received_plaintext.total() == 0 && !self.peer_eof && (
        self.common_state.traffic || self.common_state.sendable_tls.total() == 0)
    }

    /// True when records wait to be written to the transport.
    pub open spec fn wants_write(self) -> bool {
        self.common_state.sendable_tls.total() > 0
    }

    /// True for a ChangeCipherSpec record that a middlebox-compatible peer
    /// may send during a TLS 1.3 handshake.
    pub open spec fn is_middlebox_ccs(self, rec: RecordView) -> bool {
        rec.typ == ContentType::ChangeCipherSpec && !self.common_state.traffic
            && self.common_state.is_tls13()
    }

    /// The state and the outcome after an alert from the peer: an unknown
    /// level is answered with a fatal `illegal_parameter` alert; a
    /// close_notify marks the peer's end of data; another warning is
    /// ignored, except in TLS 1.3, where all but `user_canceled` are
    /// answered with a fatal `decode_error` alert and end the connection;
    /// everything else ends the connection.
    pub open spec fn alert_processed(self, a: AlertMessagePayload) -> (Self, Outcome) {
        let cs = if a.level is Unknown {
            self.common_state.fatal_alert_sent(AlertDescription::IllegalParameter)
        } else {
            self.common_state
        };
        if a.description == AlertDescription::CloseNotify {
            (ConnectionCommonView { common_state: cs, peer_eof: true, ..self }, Outcome::Nothing)
        } else if a.level == AlertLevel::Warning {
            if cs.is_tls13() && a.description != AlertDescription::UserCanceled {
                (
                    ConnectionCommonView {
                        common_state: cs.fatal_alert_sent(AlertDescription::DecodeError),
                        ..self
                    },
                    Outcome::Failed(ErrorView::AlertReceived(a.description)),
                )
            } else {
                (ConnectionCommonView { common_state: cs, ..self }, Outcome::Nothing)
            }
        } else {
            (
                ConnectionCommonView { common_state: cs, ..self },
                Outcome::Failed(ErrorView::AlertReceived(a.description)),
            )
        }
    }

    /// The state and the outcome after a plaintext record: handshake bytes
    /// go to the joiner, and a body that is too long is answered with a
    /// fatal `decode_error` alert; any other record is parsed, and an alert
    /// is dealt with at once.
    #[verifier::opaque]
    pub open spec fn plain_processed(self, plain: RecordView) -> (Self, Outcome) {
        if plain.typ == ContentType::Handshake {
            let joined = ConnectionCommonView {
                joiner: self.joiner.absorb(plain.payload, plain.version),
                ..self
            };
            if self.joiner.fails_on(plain.payload, plain.version) {
                (
                    ConnectionCommonView {
                        common_state: self.common_state.fatal_alert_sent(
                            AlertDescription::DecodeError,
                        ),
                        ..joined
                    },
                    Outcome::Failed(ErrorView::CorruptMessagePayload(ContentType::Handshake)),
                )
            } else {
                (joined, Outcome::Handshake)
            }
        } else {
            match parsed(plain) {
                Err(e) => (self, Outcome::Failed(e)),
                Ok(m) => match m.payload {
                    MessagePayloadView::Alert(a) => self.alert_processed(a),
                    _ => (self, Outcome::Data(m)),
                },
            }
        }
    }

    /// The state and the outcome after a record from the deframer: during a
    /// TLS 1.3 handshake one ChangeCipherSpec is dropped and a second one
    /// ends the connection; any other record is opened where incoming
    /// records are protected, and then processed as plaintext.
    #[verifier::opaque]
    pub open spec fn msg_processed(self, rec: RecordView) -> (Self, Outcome) {
        if self.is_middlebox_ccs(rec) {
            if self.received_middlebox_ccs {
                (self, Outcome::Failed(ErrorView::PeerMisbehavedError(illegal_ccs())))
            } else {
                (ConnectionCommonView { received_middlebox_ccs: true, ..self }, Outcome::Nothing)
            }
        } else if self.common_state.record_layer.read.active() {
            let opened = ConnectionCommonView {
                common_state: CommonState::<Data>::incoming_handled(self.common_state, rec),
                ..self
            };
            match CommonState::<Data>::incoming_result(self.common_state, rec) {
                Err(e) => (opened, Outcome::Failed(e)),
                Ok(plain) => opened.plain_processed(plain),
            }
        } else {
            self.plain_processed(rec)
        }
    }
}

impl<Data> ConnectionCommonView<Data> {
    /// The state with the first of the joiner's messages taken out.
    pub open spec fn next_joined(self) -> Self {
        ConnectionCommonView {
            joiner: JoinerView { frames: self.joiner.frames.skip(1), ..self.joiner },
            ..self
        }
    }

    /// The state with the first of the deframer's records taken out.
    pub open spec fn next_framed(self) -> Self {
        ConnectionCommonView {
            deframer: DeframerView { frames: self.deframer.frames.skip(1), ..self.deframer },
            ..self
        }
    }

    /// True when handing the joiner's messages to the handshake state
    /// machine, one after the other until one fails, can take the
    /// connection from `before` to `after` and the handshake state from
    /// `state` to `state_after`, with the result `r`.
    pub open spec fn joined_done<S: HandleState<Data>>(
        before: Self,
        state: Option<S>,
        after: Self,
        state_after: Option<S>,
        r: Result<(), Error>,
    ) -> bool
        decreases before.joiner.frames.len(),
    {
        if before.joiner.frames.len() == 0 {
            after == before && state_after == state && r is Ok
        } else {
            exists|mid: CommonStateView<Data>, mid_state: Option<S>, res: Result<(), Error>|
                {
                    &&& #[trigger] CommonState::<Data>::main_protocol_done(
                        before.common_state,
                        state,
                        before.joiner.frames[0],
                        mid,
                        mid_state,
                        res,
                    )
                    &&& match res {
                        Err(e) => after == (ConnectionCommonView {
                            common_state: mid,
                            ..before.next_joined()
                        }) && state_after == mid_state && r == Err::<(), Error>(e),
                        Ok(_) => Self::joined_done(
                            ConnectionCommonView { common_state: mid, ..before.next_joined() },
                            mid_state,
                            after,
                            state_after,
                            r,
                        ),
                    }
                }
        }
    }

    /// True when processing the handshake messages that are whole can take
    /// the connection from `before` to `after`: first it is noted whether
    /// the joiner holds no part of a message, then the messages are handed
    /// on as `joined_done` says.
    pub open spec fn handshake_messages_done<S: HandleState<Data>>(
        before: Self,
        state: Option<S>,
        after: Self,
        state_after: Option<S>,
        r: Result<(), Error>,
    ) -> bool {
        Self::joined_done(
            ConnectionCommonView {
                common_state: CommonStateView {
                    aligned_handshake: before.joiner.pending.len() == 0,
                    ..before.common_state
                },
                ..before
            },
            state,
            after,
            state_after,
            r,
        )
    }

    /// True when processing the record `rec` can take the connection from
    /// `before` to `after` and the handshake state from `state` to
    /// `state_after`, with the result `r`: the record is processed as
    /// `msg_processed` says, and what comes out of it is handed on, handshake
    /// messages as `handshake_messages_done` says and any other message as
    /// `main_protocol_done` says.
    pub open spec fn record_done<S: HandleState<Data>>(
        before: Self,
        state: Option<S>,
        rec: RecordView,
        after: Self,
        state_after: Option<S>,
        r: Result<(), Error>,
    ) -> bool {
        let first = before.msg_processed(rec).0;
        match before.msg_processed(rec).1 {
            Outcome::Nothing => after == first && state_after == state && r is Ok,
            Outcome::Failed(e) => after == first && state_after == state && (r matches Err(x)
                && x@ == e),
            Outcome::Handshake => Self::handshake_messages_done(first, state, after, state_after, r),
            Outcome::Data(m) => after == (ConnectionCommonView {
                common_state: after.common_state,
                ..first
            }) && CommonState::<Data>::main_protocol_done(
                first.common_state,
                state,
                m,
                after.common_state,
                state_after,
                r,
            ),
        }
    }

    /// True when processing the records that the deframer holds, one after
    /// the other until one fails, can take the connection from `before` to
    /// `after` and the handshake state from `state` to `state_after`, with
    /// the result `r`. The first error is kept in the connection. When no
    /// record is left, the result tells what waits to be written and read.
    pub open spec fn packets_done<S: HandleState<Data>>(
        before: Self,
        state: Option<S>,
        after: Self,
        state_after: Option<S>,
        r: Result<IoState, Error>,
    ) -> bool
        decreases before.deframer.frames.len(),
    {
        if before.deframer.frames.len() == 0 {
            after == before && state_after == state && (r matches Ok(io) && io@
                == before.io_state())
        } else {
            exists|mid: Self, mid_state: Option<S>, res: Result<(), Error>|
                {
                    &&& mid.deframer == before.next_framed().deframer
                    &&& #[trigger] Self::record_done(
                        before.next_framed(),
                        state,
                        before.deframer.frames[0],
                        mid,
                        mid_state,
                        res,
                    )
                    &&& match res {
                        Err(e) => after == (ConnectionCommonView { error: Some(e@), ..mid })
                            && state_after == mid_state && (r matches Err(x) && x@ == e@),
                        Ok(_) => Self::packets_done(mid, mid_state, after, state_after, r),
                    }
                }
        }
    }
}

/// What the caller is told of the bytes that wait for the transport agrees
/// with whether a write is wanted: the count is above zero exactly when it
/// is; and the count of plaintext bytes is zero wherever a read is wanted.
pub proof fn lemma_io_state_agrees<Data>(s: ConnectionCommonView<Data>)
    ensures
        (s.io_state().tls_bytes_to_write > 0) == s.wants_write(),
        s.wants_read() ==> s.io_state().plaintext_bytes_to_read == 0 && !s.io_state().peer_has_closed,
{
}

/// A renegotiation request after a TLS 1.2 handshake (a HelloRequest to a
/// client, a ClientHello to a server) never reaches the handshake state:
/// the result is success, the handshake state stays as it is, and the
/// common state changes by one warning `no_renegotiation` alert and nothing
/// else. The same message the other way round is no such request.
pub proof fn lemma_renegotiation_refused<Data, S: HandleState<Data>>(
    before: CommonStateView<Data>,
    state: Option<S>,
    msg: MessageView,
    after: CommonStateView<Data>,
    state_after: Option<S>,
    r: Result<(), Error>,
)
    requires
        before.sized(),
        before.traffic,
        !before.is_tls13(),
        msg.payload matches MessagePayloadView::Handshake { typ, .. } && typ == if before.is_client {
            HandshakeType::HelloRequest
        } else {
            HandshakeType::ClientHello
        },
        CommonState::<Data>::main_protocol_done(before, state, msg, after, state_after, r),
    ensures
        r is Ok,
        state_after == state,
        after == before.alert_sent(AlertLevel::Warning, AlertDescription::NoRenegotiation),
        after.only_sent(before),
        !before.encrypting() ==> after.sendable_tls.chunks == before.sendable_tls.chunks.push(
            seq![0x15u8, 0x03u8, 0x03u8, 0x00u8, 0x02u8, 0x01u8, 0x64u8],
        ),
        before.encrypting() ==> after == before.fragment_sent(
            alert_record(AlertLevel::Warning, AlertDescription::NoRenegotiation),
        ),
{
    lemma_alert_sent(before, AlertLevel::Warning, AlertDescription::NoRenegotiation);
    if before.encrypting() {
        assert(after.only_sent(before));
    }
}

/// During a TLS 1.3 handshake exactly one ChangeCipherSpec is dropped
/// without a trace but the note that it came; a second one ends the
/// connection with a protocol violation and changes nothing.
pub proof fn lemma_middlebox_ccs<Data>(
    s: ConnectionCommonView<Data>,
    first: RecordView,
    second: RecordView,
)
    requires
        s.common_state.is_tls13(),
        !s.common_state.traffic,
        !s.received_middlebox_ccs,
        first.typ == ContentType::ChangeCipherSpec,
        second.typ == ContentType::ChangeCipherSpec,
    ensures
        s.msg_processed(first) == (
            ConnectionCommonView { received_middlebox_ccs: true, ..s },
            Outcome::Nothing,
        ),
        s.msg_processed(first).0.msg_processed(second) == (
            s.msg_processed(first).0,
            Outcome::Failed(ErrorView::PeerMisbehavedError(illegal_ccs())),
        ),
{
    reveal(ConnectionCommonView::msg_processed);
}

/// Processing a plaintext record touches neither the deframer nor the
/// error that is kept for later calls.
pub proof fn lemma_plain_processed_frame<Data>(s: ConnectionCommonView<Data>, plain: RecordView)
    ensures
        s.plain_processed(plain).0.deframer == s.deframer,
        s.plain_processed(plain).0.error == s.error,
{
    reveal(ConnectionCommonView::plain_processed);
}

/// Processing a record touches neither the deframer nor the error that is
/// kept for later calls.
pub proof fn lemma_msg_processed_frame<Data>(s: ConnectionCommonView<Data>, rec: RecordView)
    ensures
        s.msg_processed(rec).0.deframer == s.deframer,
        s.msg_processed(rec).0.error == s.error,
{
    reveal(ConnectionCommonView::msg_processed);
    if s.is_middlebox_ccs(rec) {
    } else if s.common_state.record_layer.read.active() {
        let opened = ConnectionCommonView {
            common_state: CommonState::<Data>::incoming_handled(s.common_state, rec),
            ..s
        };
        match CommonState::<Data>::incoming_result(s.common_state, rec) {
            Err(e) => {},
            Ok(plain) => {
                lemma_plain_processed_frame(opened, plain);
            },
        }
    } else {
        lemma_plain_processed_frame(s, rec);
    }
}

/// After a close_notify alert the peer counts as closed and no more bytes
/// are wanted from the transport. What is queued for the transport stays
/// as it was, as long as the level of the alert is a known one.
pub proof fn lemma_close_notify<Data>(s: ConnectionCommonView<Data>, level: AlertLevel)
    ensures
        ({
            let a = AlertMessagePayload { level, description: AlertDescription::CloseNotify };
            let (after, outcome) = s.alert_processed(a);
            &&& outcome == Outcome::Nothing
            &&& after.peer_eof
            &&& !after.wants_read()
            &&& after.io_state().peer_has_closed
            &&& !(level is Unknown) ==> after == (ConnectionCommonView { peer_eof: true, ..s })
        }),
{
}

/// The state of one TLS connection, clients' and servers' alike: the
/// common state, the deframer and the joiner, and what was seen of the peer.
pub struct ConnectionCommon<Data> {
    pub common_state: CommonState<Data>,
    pub peer_eof: bool,
    pub received_middlebox_ccs: bool,
    pub error: Option<Error>,
    pub message_deframer: MessageDeframer,
    pub handshake_joiner: HandshakeJoiner,
}

impl<Data> View for ConnectionCommon<Data> {
    type V = ConnectionCommonView<Data>;

    open spec fn view(&self) -> ConnectionCommonView<Data> {
        ConnectionCommonView {
            common_state: self.common_state@,
            peer_eof: self.peer_eof,
            received_middlebox_ccs: self.received_middlebox_ccs,
            error: match self.error {
                Some(e) => Some(e@),
                None => None,
            },
            deframer: self.message_deframer@,
            joiner: self.handshake_joiner@,
        }
    }
}

impl<Data> ConnectionCommon<Data> {
    /// A connection that has seen nothing of its peer yet.
    pub fn new(common_state: CommonState<Data>) -> (r: Self)
        ensures
            r@ == (ConnectionCommonView {
                common_state: common_state@,
                peer_eof: false,
                received_middlebox_ccs: false,
                error: None,
                deframer: DeframerView {
                    frames: Seq::empty(),
                    pending: Seq::empty(),
                    desynced: false,
                },
                joiner: JoinerView::empty(),
            }),
    {
        Self {
            common_state,
            peer_eof: false,
            received_middlebox_ccs: false,
            error: None,
            message_deframer: MessageDeframer::new(),
            handshake_joiner: HandshakeJoiner::new(),
        }
    }

    /// Returns an object that allows reading plaintext. It reports the end
    /// of data once the peer has closed and nothing that it sent is still
    /// unprocessed.
    pub fn reader(&mut self) -> (r: Reader<'_>)
        ensures
            r.received_plaintext@ == old(self)@.common_state.received_plaintext,
            r.connection_at_eof == (old(self)@.peer_eof && old(self)@.deframer.frames.len() == 0
                && old(self)@.deframer.pending.len() == 0),
            final(self)@ == (ConnectionCommonView {
                common_state: CommonStateView {
                    received_plaintext: final(r.received_plaintext)@,
                    ..old(self)@.common_state
                },
                ..old(self)@
            }),
    {
        let connection_at_eof = self.peer_eof && !self.message_deframer.has_pending();
        Reader { received_plaintext: self.common_state.received_plaintext_mut(), connection_at_eof }
    }

    /// What waits to be written and read, and whether the peer has closed.
    fn current_io_state(&self) -> (r: IoState)
        ensures
            r@ == self@.io_state(),
    {
        IoState {
            tls_bytes_to_write: self.common_state.sendable_tls.len(),
            plaintext_bytes_to_read: self.common_state.received_plaintext.len(),
            peer_has_closed: self.peer_eof,
        }
    }

    /// Processes one record from the deframer, up to the point where the
    /// handshake state machine takes over.
    pub fn process_msg(&mut self, msg: OpaqueMessage) -> (r: Result<Option<MessageType>, Error>)
        ensures
            final(self)@ == old(self)@.msg_processed(msg@).0,
            match r {
                Ok(None) => old(self)@.msg_processed(msg@).1 == Outcome::Nothing,
                Ok(Some(MessageType::Handshake)) => old(self)@.msg_processed(msg@).1
                    == Outcome::Handshake,
                Ok(Some(MessageType::Data(m))) => old(self)@.msg_processed(msg@).1 == Outcome::Data(
                    m@,
                ),
                Err(e) => old(self)@.msg_processed(msg@).1 == Outcome::Failed(e@),
            },
    {
        proof {
            reveal(ConnectionCommonView::msg_processed);
        }
        // pass message to handshake state machine if any of these are true:
        // - TLS1.2 (where it's part of the state machine),
        // - prior to determining the version (it's illegal as a first message)
        // - if it's not a CCS at all
        // - if we've finished the handshake
        if msg.typ == ContentType::ChangeCipherSpec && !self.common_state.traffic
            && self.common_state.is_tls13() {
            if self.received_middlebox_ccs {
                proof {
                    reveal_strlit("illegal middlebox CCS");
                }
                return Err(Error::peer_misbehaved("illegal middlebox CCS"));
            } else {
                self.received_middlebox_ccs = true;
                return Ok(None);
            }
        }
        // Decrypt if demanded by current state.

        let plain = if self.common_state.record_layer.is_decrypting() {
            match self.common_state.decrypt_incoming(msg) {
                Ok(p) => p,
                Err(e) => {
                    return Err(e);
                },
            }
        } else {
            msg.into_plain_message()
        };
        self.process_plain(plain)
    }

    /// Processes one plaintext record, up to the point where the handshake
    /// state machine takes over.
    fn process_plain(&mut self, plain: PlainMessage) -> (r: Result<Option<MessageType>, Error>)
        ensures
            final(self)@ == old(self)@.plain_processed(plain@).0,
            match r {
                Ok(None) => old(self)@.plain_processed(plain@).1 == Outcome::Nothing,
                Ok(Some(MessageType::Handshake)) => old(self)@.plain_processed(plain@).1
                    == Outcome::Handshake,
                Ok(Some(MessageType::Data(m))) => old(self)@.plain_processed(plain@).1
                    == Outcome::Data(m@),
                Err(e) => old(self)@.plain_processed(plain@).1 == Outcome::Failed(e@),
            },
    {
        proof {
            reveal(ConnectionCommonView::plain_processed);
        }
        // For handshake messages, we need to join them before parsing
        // and processing.
        if self.handshake_joiner.want_message(&plain) {
            match self.handshake_joiner.take_message(plain) {
                Some(_) => {
                    return Ok(Some(MessageType::Handshake));
                },
                None => {
                    self.common_state.send_fatal_alert(AlertDescription::DecodeError);
                    return Err(Error::CorruptMessagePayload(ContentType::Handshake));
                },
            }
        }
        // Now we can fully parse the message payload.

        let m = match Message::try_from(plain) {
            Ok(m) => m,
            Err(e) => {
                return Err(e);
            },
        };

        // For alerts, we have separate logic.
        match &m.payload {
            MessagePayload::Alert(alert) => {
                let a = *alert;
                match self.process_alert(&a) {
                    Ok(()) => Ok(None),
                    Err(e) => Err(e),
                }
            },
            _ => Ok(Some(MessageType::Data(m))),
        }
    }

    /// Processes one record from the deframer, the part of the handshake
    /// state machine included.
    fn process_one<S: HandleState<Data>>(&mut self, msg: OpaqueMessage, state: &mut Option<S>) -> (r:
        Result<(), Error>)
        requires
            *old(state) is Some,
        ensures
            ConnectionCommonView::record_done(
                old(self)@,
                *old(state),
                msg@,
                final(self)@,
                *final(state),
                r,
            ),
            r is Ok ==> *final(state) is Some,
            final(self)@.deframer == old(self)@.deframer,
            final(self)@.error == old(self)@.error,
    {
        proof {
            lemma_msg_processed_frame(old(self)@, msg@);
        }
        match self.process_msg(msg) {
            Ok(Some(MessageType::Handshake)) => self.process_new_handshake_messages(state),
            Ok(Some(MessageType::Data(m))) => self.common_state.process_main_protocol(m, state),
            Ok(None) => Ok(()),
            Err(e) => Err(e),
        }
    }

    /// Processes any new packets read by a previous call to `read_tls`.
    ///
    /// Errors from this function relate to TLS protocol errors, and
    /// are fatal to the connection.  Future calls after an error will do
    /// no new work and will return the same error.
    ///
    /// A record that waits needs a handshake state to go to. Where none
    /// waits, the call only tells the I/O state.
    ///
    /// Success from this function comes with some sundry state data
    /// about the connection.
    pub fn process_new_packets<S: HandleState<Data>>(&mut self, state: &mut Option<S>) -> (r:
        Result<IoState, Error>)
        requires
            old(self)@.error is Some || old(self)@.deframer.desynced || *old(state) is Some
                || old(self)@.deframer.frames.len() == 0,
        ensures
            old(self)@.error matches Some(e) ==> final(self)@ == old(self)@ && *final(state) == *old(state) && (r matches Err(same) && same@ == e),
            old(self)@.error is None && old(self)@.deframer.desynced ==> final(self)@ == old(self)@
                && *final(state) == *old(state) && (r matches Err(e) && e@
                == ErrorView::CorruptMessage),
            old(self)@.error is None && !old(self)@.deframer.desynced
                ==> ConnectionCommonView::packets_done(
                old(self)@,
                *old(state),
                final(self)@,
                *final(state),
                r,
            ),
            old(self)@.error is None && !old(self)@.deframer.desynced ==> match r {
                Ok(io) => io@ == final(self)@.io_state() && final(self)@.error is None
                    && final(self)@.deframer.frames.len() == 0 && (*old(state) is Some
                    ==> *final(state) is Some),
                Err(e) => final(self)@.error == Some(e@),
            },
            old(self)@.error is None && !old(self)@.deframer.desynced
                && old(self)@.deframer.frames.len() == 0 ==> r is Ok && final(self)@ == old(self)@
                && *final(state) == *old(state),
            final(self)@.deframer.pending == old(self)@.deframer.pending,
            final(self)@.deframer.desynced == old(self)@.deframer.desynced,
    {
        match &self.error {
            Some(err) => {
                return Err(err.clone());
            },
            None => {},
        }

        if self.message_deframer.is_desynced() {
            return Err(Error::CorruptMessage);
        }
        loop
            invariant
                old(self)@.error is None,
                !old(self)@.deframer.desynced,
                self@.error is None,
                self@.deframer.frames.len() > 0 ==> *state is Some,
                *old(state) is Some ==> *state is Some,
                old(self)@.deframer.frames.len() == 0 ==> self@ == old(self)@ && *state == *old(state),
                self@.deframer.pending == old(self)@.deframer.pending,
                self@.deframer.desynced == old(self)@.deframer.desynced,
                forall|after: ConnectionCommonView<Data>, state_after: Option<S>, res: Result<IoState, Error>|
                    #[trigger] ConnectionCommonView::packets_done(
                        self@,
                        *state,
                        after,
                        state_after,
                        res,
                    ) ==> ConnectionCommonView::packets_done(
                        old(self)@,
                        *old(state),
                        after,
                        state_after,
                        res,
                    ),
            decreases self@.deframer.frames.len(),
        {
            let ghost here = self@;
            let ghost here_state = *state;
            let msg = match self.message_deframer.pop_frame() {
                Some(msg) => msg,
                None => {
                    let io = self.current_io_state();
                    let r = Ok(io);
                    assert(ConnectionCommonView::packets_done(here, here_state, here, here_state, r));
                    return r;
                },
            };
            assert(self@ == here.next_framed());
            let ghost rec = msg@;
            let result = self.process_one(msg, state);
            let ghost mid = self@;
            let ghost mid_state = *state;

            match result {
                Err(err) => {
                    self.error = Some(err.clone());
                    let r = Err(err);
                    proof {
                        assert(ConnectionCommonView::record_done(
                            here.next_framed(),
                            here_state,
                            here.deframer.frames[0],
                            mid,
                            mid_state,
                            result,
                        ));
                        assert(ConnectionCommonView::packets_done(
                            here,
                            here_state,
                            self@,
                            mid_state,
                            r,
                        ));
                    }
                    return r;
                },
                Ok(()) => {
                    proof {
                        assert forall|
                            after: ConnectionCommonView<Data>,
                            state_after: Option<S>,
                            res: Result<IoState, Error>,
                        | #[trigger]
                            ConnectionCommonView::packets_done(
                                mid,
                                mid_state,
                                after,
                                state_after,
                                res,
                            ) implies ConnectionCommonView::packets_done(
                            old(self)@,
                            *old(state),
                            after,
                            state_after,
                            res,
                        ) by {
                            assert(ConnectionCommonView::record_done(
                                here.next_framed(),
                                here_state,
                                here.deframer.frames[0],
                                mid,
                                mid_state,
                                result,
                            ));
                            assert(ConnectionCommonView::packets_done(
                                here,
                                here_state,
                                after,
                                state_after,
                                res,
                            ));
                        }
                    }
                },
            }
        }
    }

    /// Hands the handshake messages that the joiner holds to the handshake
    /// state machine, one after the other, until one fails. Before that it
    /// notes whether the joiner holds part of a message: a state that
    /// changes keys checks this.
    pub fn process_new_handshake_messages<S: HandleState<Data>>(
        &mut self,
        state: &mut Option<S>,
    ) -> (r: Result<(), Error>)
        requires
            *old(state) is Some,
        ensures
            ConnectionCommonView::handshake_messages_done(
                old(self)@,
                *old(state),
                final(self)@,
                *final(state),
                r,
            ),
            r is Ok ==> *final(state) is Some && final(self)@.joiner.frames.len() == 0,
            final(self)@.joiner.pending == old(self)@.joiner.pending,
            final(self)@.deframer == old(self)@.deframer,
            final(self)@.error == old(self)@.error,
            final(self)@.peer_eof == old(self)@.peer_eof,
            final(self)@.received_middlebox_ccs == old(self)@.received_middlebox_ccs,
    {
        self.common_state.set_aligned_handshake(self.handshake_joiner.is_empty());
        let ghost start = self@;
        loop
            invariant
                *state is Some,
                self@.joiner.pending == old(self)@.joiner.pending,
                self@.deframer == old(self)@.deframer,
                self@.error == old(self)@.error,
                self@.peer_eof == old(self)@.peer_eof,
                self@.received_middlebox_ccs == old(self)@.received_middlebox_ccs,
                start == (ConnectionCommonView {
                    common_state: CommonStateView {
                        aligned_handshake: old(self)@.joiner.pending.len() == 0,
                        ..old(self)@.common_state
                    },
                    ..old(self)@
                }),
                forall|after: ConnectionCommonView<Data>, state_after: Option<S>, res: Result<(), Error>|
                    #[trigger] ConnectionCommonView::joined_done(
                        self@,
                        *state,
                        after,
                        state_after,
                        res,
                    ) ==> ConnectionCommonView::joined_done(
                        start,
                        *old(state),
                        after,
                        state_after,
                        res,
                    ),
            decreases self@.joiner.frames.len(),
        {
            let ghost here = self@;
            let ghost here_state = *state;
            match self.handshake_joiner.pop_frame() {
                Some(msg) => {
                    assert(self@ == here.next_joined());
                    let ghost m = msg@;
                    let result = self.common_state.process_main_protocol(msg, state);
                    let ghost mid = self@;
                    let ghost mid_state = *state;
                    proof {
                        assert(mid == (ConnectionCommonView {
                            common_state: mid.common_state,
                            ..here.next_joined()
                        }));
                        assert(CommonState::<Data>::main_protocol_done(
                            here.common_state,
                            here_state,
                            here.joiner.frames[0],
                            mid.common_state,
                            mid_state,
                            result,
                        ));
                    }
                    match result {
                        Ok(()) => {
                            proof {
                                assert forall|
                                    after: ConnectionCommonView<Data>,
                                    state_after: Option<S>,
                                    res: Result<(), Error>,
                                | #[trigger]
                                    ConnectionCommonView::joined_done(
                                        mid,
                                        mid_state,
                                        after,
                                        state_after,
                                        res,
                                    ) implies ConnectionCommonView::joined_done(
                                    start,
                                    *old(state),
                                    after,
                                    state_after,
                                    res,
                                ) by {
                                    assert(ConnectionCommonView::joined_done(
                                        here,
                                        here_state,
                                        after,
                                        state_after,
                                        res,
                                    ));
                                }
                            }
                        },
                        Err(e) => {
                            let r = Err(e);
                            proof {
                                assert(ConnectionCommonView::joined_done(
                                    here,
                                    here_state,
                                    mid,
                                    mid_state,
                                    r,
                                ));
                            }
                            return r;
                        },
                    }
                },
                None => {
                    let r = Ok(());
                    proof {
                        assert(ConnectionCommonView::joined_done(here, here_state, here, here_state, r));
                    }
                    return r;
                },
            }
        }
    }

    /// Retrieves the protocol agreed with the peer via ALPN.
    pub fn get_alpn_protocol(&self) -> (r: Option<&[u8]>)
        ensures
            match r {
                Some(p) => self@.common_state.alpn_protocol == Some(p@),
                None => self@.common_state.alpn_protocol is None,
            },
    {
        self.common_state.alpn_protocol()
    }

    /// Returns true if the caller should read from the transport as soon as
    /// possible.
    pub fn wants_read(&self) -> (r: bool)
        ensures
            r == self@.wants_read(),
    {
        // We want to read more data all the time, except when we have unprocessed plaintext.
        // This provides back-pressure to the TCP buffers. We also don't want to read more after
        // the peer has sent us a close notification.
        //
        // In the handshake case we don't have readable plaintext before the handshake has
        // completed, but also don't want to read if we still have sendable tls.
        self.common_state.received_plaintext.is_empty() && !self.peer_eof && (
        self.common_state.traffic || self.common_state.sendable_tls.is_empty())
    }

    /// Returns true if the caller should write to the transport as soon as
    /// possible.
    pub fn wants_write(&self) -> (r: bool)
        ensures
            r == self@.wants_write(),
    {
        !self.common_state.sendable_tls.is_empty()
    }

    /// Returns true if the connection is currently performing the TLS
    /// handshake.
    pub fn is_handshaking(&self) -> (r: bool)
        ensures
            r == !self@.common_state.traffic,
    {
        !self.common_state.traffic
    }

    /// Sets a limit on the internal buffers used to buffer
    /// unsent plaintext (prior to completing the TLS handshake)
    /// and unsent TLS records. What the buffers hold stays, also where it
    /// exceeds the new limit.
    pub fn set_buffer_limit(&mut self, limit: Option<usize>)
        ensures
            final(self)@ == (ConnectionCommonView {
                common_state: CommonStateView {
                    sendable_plaintext: ChunkVecBufferView {
                        limit,
                        ..old(self)@.common_state.sendable_plaintext
                    },
                    sendable_tls: ChunkVecBufferView { limit, ..old(self)@.common_state.sendable_tls },
                    ..old(self)@.common_state
                },
                ..old(self)@
            }),
    {
        self.common_state.sendable_plaintext.set_limit(limit);
        self.common_state.sendable_tls.set_limit(limit);
    }

    /// Deals with an alert from the peer.
    fn process_alert(&mut self, alert: &AlertMessagePayload) -> (r: Result<(), Error>)
        ensures
            final(self)@ == old(self)@.alert_processed(*alert).0,
            match r {
                Ok(()) => old(self)@.alert_processed(*alert).1 == Outcome::Nothing,
                Err(e) => old(self)@.alert_processed(*alert).1 == Outcome::Failed(e@),
            },
    {
        // Reject unknown AlertLevels.
        match alert.level {
            AlertLevel::Unknown(_) => {
                self.common_state.send_fatal_alert(AlertDescription::IllegalParameter);
            },
            _ => {},
        }

        // If we get a CloseNotify, make a note to declare EOF to our
        // caller.
        if alert.description == AlertDescription::CloseNotify {
            self.peer_eof = true;
            return Ok(());
        }
        // Warnings are nonfatal for TLS1.2, but outlawed in TLS1.3
        // (except, for no good reason, user_cancelled).

        if alert.level == AlertLevel::Warning {
            if self.common_state.is_tls13() && alert.description != AlertDescription::UserCanceled {
                self.common_state.send_fatal_alert(AlertDescription::DecodeError);
            } else {
                return Ok(());
            }
        }
        Err(Error::AlertReceived(alert.description))
    }

    /// Takes in TLS content that was read from the transport, in pieces of
    /// any size, as far as there is room for it, and returns how many bytes
    /// were taken.
    pub fn read_tls(&mut self, data: &[u8]) -> (n: usize)
        ensures
            n == if data@.len() <= old(self)@.deframer.room() {
                data@.len()
            } else {
                old(self)@.deframer.room()
            },
            final(self)@ == (ConnectionCommonView {
                deframer: old(self)@.deframer.absorb(data@.take(n as int)),
                ..old(self)@
            }),
    {
        self.message_deframer.read(data)
    }

    /// Send plaintext application data, fragmenting and
    /// encrypting it as it goes out.
    ///
    /// If internal buffers are too small, this function will not accept
    /// all the data.
    pub fn send_some_plaintext(&mut self, data: &[u8]) -> (n: usize)
        ensures
            n == old(self)@.common_state.plain_taken(data@, true),
            final(self)@ == (ConnectionCommonView {
                common_state: old(self)@.common_state.plain_sent(data@, true),
                ..old(self)@
            }),
            final(self)@.common_state.sized(),
    {
        let n = self.common_state.send_plain(data, Limit::Yes);
        proof {
            use_type_invariant(&self.common_state.message_fragmenter);
            self.common_state.message_fragmenter.lemma_bounded();
        }
        n
    }

    /// Sends application data before the handshake is complete, where early
    /// data may be sent and outgoing records are protected; elsewhere
    /// nothing is taken.
    pub fn send_early_plaintext(&mut self, data: &[u8]) -> (n: usize)
        ensures
            old(self)@.common_state.early_traffic && old(self)@.common_state.encrypting()
                && data@.len() > 0 ==> n == admitted(
                old(self)@.common_state.sendable_tls.limit,
                old(self)@.common_state.sendable_tls.held(),
                data@.len(),
            ) && final(self)@ == (ConnectionCommonView {
                common_state: old(self)@.common_state.appdata_sent(data@.take(n as int)),
                ..old(self)@
            }),
            !(old(self)@.common_state.early_traffic && old(self)@.common_state.encrypting()
                && data@.len() > 0) ==> n == 0 && final(self)@ == old(self)@,
    {
        if !self.common_state.early_traffic || !self.common_state.record_layer.is_encrypting() {
            return 0;
        }
        if data.len() == 0 {
            // Don't send empty fragments.
            return 0;
        }
        self.common_state.send_appdata_encrypt(data, Limit::Yes)
    }

    /// Derives key material from the agreed connection secrets.
    ///
    /// This function fills in `output` with `output.len()` bytes of key
    /// material derived from the master session secret using `label`
    /// and `context` for diversification.
    ///
    /// This function fails if called prior to the handshake completing, or
    /// without the secrets that the handshake agreed on; `output` is then
    /// left as it is.
    pub fn export_keying_material(
        &self,
        secrets: Option<&ConnectionSecrets>,
        output: &mut [u8],
        label: &[u8],
        context: Option<&[u8]>,
    ) -> (r: Result<(), Error>)
        requires
            context matches Some(c) ==> c@.len() <= 0xffff,
        ensures
            final(output)@.len() == old(output)@.len(),
            match secrets {
                Some(s) if self@.common_state.traffic => r is Ok && final(output)@ == prf_output(
                    s.suite.hmac_algorithm,
                    s.master_secret@,
                    label@,
                    export_seed(
                        s.randoms.client@,
                        s.randoms.server@,
                        match context {
                            Some(c) => Some(c@),
                            None => None,
                        },
                    ),
                    old(output)@.len(),
                ),
                _ => r == Err::<(), Error>(Error::HandshakeNotComplete) && final(output)@ == old(output)@,
            },
    {
        if self.is_handshaking() {
            return Err(Error::HandshakeNotComplete);
        }
        match secrets {
            Some(s) => {
                s.export_keying_material(output, label, context);
                Ok(())
            },
            None => Err(Error::HandshakeNotComplete),
        }
    }

    /// Queues a close_notify warning alert to be sent with the next write
    /// to the transport.  This informs the peer that the
    /// connection is being closed.
    pub fn send_close_notify(&mut self)
        ensures
            final(self)@ == (ConnectionCommonView {
                common_state: old(self)@.common_state.alert_sent(
                    AlertLevel::Warning,
                    AlertDescription::CloseNotify,
                ),
                ..old(self)@
            }),
            final(self)@.common_state.sized(),
    {
        self.common_state.send_close_notify();
    }
}

impl<Data> PlaintextSink for ConnectionCommon<Data> {
    /// A write takes as many bytes as the buffer limit admits and buffers or
    /// sends them; it never fails.
    open spec fn wrote(before: &Self, after: &Self, buf: Seq<u8>, r: Result<usize, Error>) -> bool {
        &&& r matches Ok(n) && n == before@.common_state.plain_taken(buf, true)
        &&& after@ == (ConnectionCommonView {
            common_state: before@.common_state.plain_sent(buf, true),
            ..before@
        })
    }

    /// A vectored write is a write of each buffer in turn; the result is the
    /// number of bytes taken in all, or the largest machine word where that
    /// does not fit.
    open spec fn wrote_vectored(
        before: &Self,
        after: &Self,
        bufs: Seq<Seq<u8>>,
        r: Result<usize, Error>,
    ) -> bool {
        &&& r matches Ok(n) && n == if before@.common_state.all_plain_taken(bufs) <= usize::MAX {
            before@.common_state.all_plain_taken(bufs)
        } else {
            usize::MAX as nat
        }
        &&& after@ == (ConnectionCommonView {
            common_state: before@.common_state.all_plain_sent(bufs),
            ..before@
        })
    }

    /// A flush does nothing, and never fails.
    open spec fn flushed(before: &Self, after: &Self, r: Result<(), Error>) -> bool {
        r is Ok && after@ == before@
    }

    fn write(&mut self, buf: &[u8]) -> (r: Result<usize, Error>) {
        Ok(self.send_some_plaintext(buf))
    }

    fn write_vectored(&mut self, bufs: &[&[u8]]) -> (r: Result<usize, Error>) {
        let ghost all = bufs@.map_values(|b: &[u8]| b@);
        let ghost start = old(self)@.common_state;
        let ghost mut done: nat = 0;
        let mut sz: usize = 0;
        let mut i: usize = 0;
        assert(all.skip(0) =~= all);
        while i < bufs.len()
            invariant
                i <= bufs@.len(),
                all == bufs@.map_values(|b: &[u8]| b@),
                start == old(self)@.common_state,
                self@ == (ConnectionCommonView { common_state: self@.common_state, ..old(self)@ }),
                self@.common_state.all_plain_sent(all.skip(i as int)) == start.all_plain_sent(all),
                done + self@.common_state.all_plain_taken(all.skip(i as int))
                    == start.all_plain_taken(all),
                sz == if done <= usize::MAX {
                    done
                } else {
                    usize::MAX as nat
                },
            decreases bufs@.len() - i,
        {
            proof {
                assert(all.skip(i as int)[0] == bufs@[i as int]@);
                assert(all.skip(i as int).skip(1) =~= all.skip(i + 1));
            }
            let n = self.send_some_plaintext(bufs[i]);
            sz = if n > usize::MAX - sz {
                usize::MAX
            } else {
                sz + n
            };
            proof {
                done = (done + n) as nat;
            }
            i = i + 1;
        }
        Ok(sz)
    }

    fn flush(&mut self) -> (r: Result<(), Error>) {
        Ok(())
    }
}

/// The state of a connection whose handshake is complete: it takes
/// application data and nothing else.
pub struct ExpectTraffic;

impl<Data> HandleState<Data> for ExpectTraffic {
    /// Application data is added to the plaintext that waits to be read;
    /// every other message is refused as inappropriate, and changes nothing.
    open spec fn handles(
        before: Self,
        common_before: CommonStateView<Data>,
        message: MessageView,
        common_after: CommonStateView<Data>,
        r: Result<Self, Error>,
    ) -> bool {
        match message.payload {
            MessagePayloadView::ApplicationData(d) => r is Ok && common_after == (
            CommonStateView {
                received_plaintext: common_before.received_plaintext.appended(d),
                ..common_before
            }),
            other => common_after == common_before && (r matches Err(e) && e@
                == ErrorView::InappropriateMessage {
                expect_types: seq![ContentType::ApplicationData],
                got_type: other.content_type(),
            }),
        }
    }

    fn handle(self, common: &mut CommonState<Data>, message: Message) -> (r: Result<Self, Error>) {
        let got_type = message.content_type();
        match message.payload {
            MessagePayload::ApplicationData(payload) => {
                common.take_received_plaintext(payload);
                Ok(self)
            },
            _ => {
                let mut expect_types: Vec<ContentType> = Vec::new();
                expect_types.push(ContentType::ApplicationData);
                assert(expect_types@ =~= seq![ContentType::ApplicationData]);
                Err(Error::InappropriateMessage { expect_types, got_type })
            },
        }
    }
}

/// What the caller who completes outstanding I/O has to do next.
#[derive(Clone, Copy, Debug, PartialEq, Eq, Structural)]
pub enum IoStep {
    /// Write what is queued to the transport, and report how much was written.
    Write,
    /// Read from the transport, hand what was read to the connection, and
    /// report how much that was.
    Read,
    /// Process the new packets, and report whether that succeeded.
    Process,
    /// Try once more to write what is queued, whatever comes of it, so that
    /// an alert that describes the failure reaches the peer.
    LastWrite,
    /// Finished: the bytes read and written are the result.
    Done,
    /// Failed: the transport ended before the handshake was complete.
    UnexpectedEof,
    /// Failed: processing the new packets failed; its error is the cause.
    InvalidData,
}

/// What the caller reports back.
#[derive(Clone, Copy, Debug, PartialEq, Eq, Structural)]
pub enum IoEvent {
    /// Nothing was done yet.
    Begin,
    /// So many bytes were written to the transport.
    Wrote(usize),
    /// So many bytes were read from the transport; none means that it ended.
    Read(usize),
    /// The new packets were processed.
    Processed,
    /// Processing the new packets failed.
    Failed,
    /// The last write was tried.
    LastWritten,
}

/// What the connection says of itself when the next step is decided.
#[derive(Clone, Copy, Debug, PartialEq, Eq, Structural)]
pub struct Wants {
    pub write: bool,
    pub read: bool,
    pub handshaking: bool,
}

/// The progress of completing outstanding I/O: whether it runs until the
/// handshake is complete, whether the transport ended, and how many bytes
/// were written and read so far.
#[derive(Clone, Copy, Debug, PartialEq, Eq, Structural)]
pub struct CompleteIo {
    pub until_handshaked: bool,
    pub eof: bool,
    pub wrlen: usize,
    pub rdlen: usize,
}

/// The sum of two counts, or the largest count where the sum does not fit.
pub open spec fn counted(a: usize, b: usize) -> usize {
    if a + b > usize::MAX {
        usize::MAX
    } else {
        (a + b) as usize
    }
}

impl CompleteIo {
    /// The step at the top of a round: write for as long as something is
    /// queued; then finish where the handshake was complete from the start
    /// and something was written; then read once where bytes are wanted and
    /// the transport has not ended; then process.
    pub open spec fn top(self, wants: Wants) -> IoStep {
        if wants.write {
            IoStep::Write
        } else if !self.until_handshaked && self.wrlen > 0 {
            IoStep::Done
        } else if !self.eof && wants.read {
            IoStep::Read
        } else {
            IoStep::Process
        }
    }

    /// The progress after `event`.
    pub open spec fn after(self, event: IoEvent) -> CompleteIo {
        match event {
            IoEvent::Wrote(n) => CompleteIo { wrlen: counted(self.wrlen, n), ..self },
            IoEvent::Read(n) => if n == 0 {
                CompleteIo { eof: true, ..self }
            } else {
                CompleteIo { rdlen: counted(self.rdlen, n), ..self }
            },
            _ => self,
        }
    }

    /// The step that follows `event`, the progress being what it is after
    /// the event. After packets were processed the work is finished when
    /// the handshake was complete from the start, or is complete now; it
    /// has failed when the handshake is still going on and the transport
    /// has ended; else another round begins.
    pub open spec fn step(self, event: IoEvent, wants: Wants) -> IoStep {
        match event {
            IoEvent::Begin => self.top(wants),
            IoEvent::Wrote(_) => self.top(wants),
            IoEvent::Read(_) => IoStep::Process,
            IoEvent::Processed => if !self.until_handshaked || !wants.handshaking {
                IoStep::Done
            } else if self.eof {
                IoStep::UnexpectedEof
            } else {
                self.top(wants)
            },
            IoEvent::Failed => IoStep::LastWrite,
            IoEvent::LastWritten => IoStep::InvalidData,
        }
    }

    /// Begins: the work runs until the handshake is complete where the
    /// connection is handshaking now.
    pub fn new(is_handshaking: bool) -> (r: CompleteIo)
        ensures
            r == (CompleteIo { until_handshaked: is_handshaking, eof: false, wrlen: 0, rdlen: 0 }),
    {
        CompleteIo { until_handshaked: is_handshaking, eof: false, wrlen: 0, rdlen: 0 }
    }

    /// Takes in what the caller reports and decides the next step.
    pub fn next(&mut self, event: IoEvent, wants: Wants) -> (r: IoStep)
        ensures
            *final(self) == old(self).after(event),
            r == old(self).after(event).step(event, wants),
    {
        match event {
            IoEvent::Wrote(n) => {
                self.wrlen = if n > usize::MAX - self.wrlen {
                    usize::MAX
                } else {
                    self.wrlen + n
                };
            },
            IoEvent::Read(n) => {
                if n == 0 {
                    self.eof = true;
                } else {
                    self.rdlen = if n > usize::MAX - self.rdlen {
                        usize::MAX
                    } else {
                        self.rdlen + n
                    };
                }
            },
            _ => {},
        }
        match event {
            IoEvent::Read(_) => IoStep::Process,
            IoEvent::Failed => IoStep::LastWrite,
            IoEvent::LastWritten => IoStep::InvalidData,
            IoEvent::Processed => {
                if !self.until_handshaked || !wants.handshaking {
                    IoStep::Done
                } else if self.eof {
                    IoStep::UnexpectedEof
                } else {
                    self.first_of_round(wants)
                }
            },
            _ => self.first_of_round(wants),
        }
    }

    /// The step at the top of a round.
    fn first_of_round(&self, wants: Wants) -> (r: IoStep)
        ensures
            r == self.top(wants),
    {
        if wants.write {
            IoStep::Write
        } else if !self.until_handshaked && self.wrlen > 0 {
            IoStep::Done
        } else if !self.eof && wants.read {
            IoStep::Read
        } else {
            IoStep::Process
        }
    }
}

impl<Data> ConnectionCommon<Data> {
    /// What the connection says of itself when the next step of completing
    /// outstanding I/O is decided.
    pub fn wants(&self) -> (r: Wants)
        ensures
            r == (Wants {
                write: self@.wants_write(),
                read: self@.wants_read(),
                handshaking: !self@.common_state.traffic,
            }),
    {
        Wants { write: self.wants_write(), read: self.wants_read(), handshaking: self.is_handshaking() }
    }
}

} // verus!
