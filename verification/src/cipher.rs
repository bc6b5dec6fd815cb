use crate::conn::ConnectionSecrets;
use crate::crypto::{aead_open, aead_opened, aead_seal, aead_sealed, NONCE_LEN, TAG_LEN};
use crate::error::{Error, ErrorView};
use crate::msgs::codec::{
    lemma_u64_bytes_injective, put_bytes, put_u16, put_u64, u16_bytes, u64_bytes,
};
use crate::msgs::enums::{ContentType, ProtocolVersion};
use crate::msgs::message::{
    BorrowedPlainMessage, OpaqueMessage, PlainMessage, RecordView, MAX_CIPHERTEXT_LEN,
    MAX_FRAGMENT_LEN,
};
use crate::suites::BulkAlgorithm;
use vstd::prelude::*;
use vstd::slice::{slice_subrange, slice_to_vec};

verus! {

/// The length of the nonce part that travels with a TLS 1.2 GCM record.
pub const GCM_EXPLICIT_NONCE_LEN: usize = 8;

/// How a record protection builds its nonce and its additional data.
#[derive(Clone, Copy, Debug, PartialEq, Eq, Structural)]
pub enum Protection {
    /// TLS 1.2 with AES-GCM: four fixed bytes, eight bytes sent with the record.
    Tls12Gcm,
    /// TLS 1.2 with ChaCha20-Poly1305: the nonce is derived from the sequence number.
    Tls12ChaCha,
    /// TLS 1.3: derived nonce, and the content type travels inside the ciphertext.
    Tls13,
}

/// The nonce for sequence number `seq`: the last eight bytes of `iv` are
/// combined bit by bit with the big-endian sequence number.
pub open spec fn xor_nonce(iv: Seq<u8>, seq: u64) -> Seq<u8>
    recommends
        iv.len() == NONCE_LEN,
{
    Seq::new(
        NONCE_LEN as nat,
        |i: int|
            if i < 4 {
                iv[i]
            } else {
                iv[i] ^ u64_bytes(seq)[i - 4]
            },
    )
}

/// The additional data of a TLS 1.2 record: sequence number, content type,
/// version and plaintext length.
pub open spec fn tls12_aad(seq: u64, typ: ContentType, version: ProtocolVersion, len: nat) -> Seq<u8> {
    u64_bytes(seq) + seq![typ.wire()] + u16_bytes(version.wire()) + u16_bytes(len as u16)
}

/// The additional data of a TLS 1.3 record: the header it travels under.
pub open spec fn tls13_aad(len: nat) -> Seq<u8> {
    seq![0x17u8, 0x03u8, 0x03u8] + u16_bytes(len as u16)
}

/// The number of zero bytes at the end of `p`.
pub open spec fn trailing_zeros(p: Seq<u8>) -> nat
    decreases p.len(),
{
    if p.len() == 0 || p.last() != 0 {
        0
    } else {
        1 + trailing_zeros(p.drop_last())
    }
}

/// The mathematical value of a [`RecordCipher`].
pub ghost struct CipherView {
    pub kind: Protection,
    pub alg: BulkAlgorithm,
    pub key: Seq<u8>,
    pub iv: Seq<u8>,
}

impl CipherView {
    /// The key and the nonce base have the lengths the scheme asks for.
    pub open spec fn valid(self) -> bool {
        self.key.len() == self.alg.key_len() && self.iv.len() == NONCE_LEN
    }

    /// The record that protects `plain` under sequence number `seq`.
    pub open spec fn encrypted(self, seq: u64, plain: RecordView) -> RecordView {
        let nonce = xor_nonce(self.iv, seq);
        match self.kind {
            Protection::Tls12Gcm => RecordView {
                typ: plain.typ,
                version: plain.version,
                payload: nonce.skip(4) + aead_sealed(
                    self.alg,
                    self.key,
                    nonce,
                    tls12_aad(seq, plain.typ, plain.version, plain.payload.len()),
                    plain.payload,
                ),
            },
            Protection::Tls12ChaCha => RecordView {
                typ: plain.typ,
                version: plain.version,
                payload: aead_sealed(
                    self.alg,
                    self.key,
                    nonce,
                    tls12_aad(seq, plain.typ, plain.version, plain.payload.len()),
                    plain.payload,
                ),
            },
            Protection::Tls13 => {
                let inner = plain.payload.push(plain.typ.wire());
                RecordView {
                    typ: ContentType::ApplicationData,
                    version: ProtocolVersion::TLSv1_2,
                    payload: aead_sealed(
                        self.alg,
                        self.key,
                        nonce,
                        tls13_aad((inner.len() + TAG_LEN) as nat),
                        inner,
                    ),
                }
            },
        }
    }

    /// What opening the payload of `rec` under sequence number `seq` gives,
    /// before any check on the plaintext.
    pub open spec fn opened(self, seq: u64, rec: RecordView) -> Option<Seq<u8>> {
        let p = rec.payload;
        match self.kind {
            Protection::Tls12Gcm => if p.len() < GCM_EXPLICIT_NONCE_LEN + TAG_LEN {
                None
            } else {
                aead_opened(
                    self.alg,
                    self.key,
                    self.iv.take(4) + p.take(GCM_EXPLICIT_NONCE_LEN as int),
                    tls12_aad(
                        seq,
                        rec.typ,
                        rec.version,
                        (p.len() - GCM_EXPLICIT_NONCE_LEN - TAG_LEN) as nat,
                    ),
                    p.skip(GCM_EXPLICIT_NONCE_LEN as int),
                )
            },
            Protection::Tls12ChaCha => if p.len() < TAG_LEN {
                None
            } else {
                aead_opened(
                    self.alg,
                    self.key,
                    xor_nonce(self.iv, seq),
                    tls12_aad(seq, rec.typ, rec.version, (p.len() - TAG_LEN) as nat),
                    p,
                )
            },
            Protection::Tls13 => if p.len() < TAG_LEN {
                None
            } else {
                aead_opened(self.alg, self.key, xor_nonce(self.iv, seq), tls13_aad(p.len()), p)
            },
        }
    }

    /// The plaintext record that `rec` carries under sequence number `seq`,
    /// or the error it is refused with: a record that is too long, before or
    /// after opening, is oversized; one that does not open is a decrypt
    /// error; a TLS 1.3 plaintext without a content type is a protocol
    /// violation.
    pub open spec fn decrypted(self, seq: u64, rec: RecordView) -> Result<RecordView, ErrorView> {
        if rec.payload.len() > MAX_CIPHERTEXT_LEN {
            Err(ErrorView::PeerSentOversizedRecord)
        } else {
            match self.opened(seq, rec) {
                None => Err(ErrorView::DecryptError),
                Some(plain) => match self.kind {
                    Protection::Tls13 => {
                        let body = plain.take(plain.len() - trailing_zeros(plain));
                        if plain.len() > MAX_FRAGMENT_LEN + 1 {
                            Err(ErrorView::PeerSentOversizedRecord)
                        } else if body.len() == 0 {
                            Err(ErrorView::PeerMisbehavedError(bad_inner_plaintext()))
                        } else if body.len() - 1 > MAX_FRAGMENT_LEN {
                            Err(ErrorView::PeerSentOversizedRecord)
                        } else {
                            Ok(
                                RecordView {
                                    typ: ContentType::of_wire(body.last()),
                                    version: ProtocolVersion::TLSv1_3,
                                    payload: body.drop_last(),
                                },
                            )
                        }
                    },
                    _ => if plain.len() > MAX_FRAGMENT_LEN {
                        Err(ErrorView::PeerSentOversizedRecord)
                    } else {
                        Ok(RecordView { typ: rec.typ, version: rec.version, payload: plain })
                    },
                },
            }
        }
    }

    /// The record that the receiving side gets when `plain` is sent: the
    /// record itself, in TLS 1.3 under the version TLS 1.3.
    pub open spec fn delivered(self, plain: RecordView) -> RecordView {
        match self.kind {
            Protection::Tls13 => RecordView {
                typ: plain.typ,
                version: ProtocolVersion::TLSv1_3,
                payload: plain.payload,
            },
            _ => plain,
        }
    }

    /// The records that can be sent: no longer than a fragment may be, and in
    /// TLS 1.3 with a content type that has a code of its own other than zero.
    pub open spec fn sendable(self, plain: RecordView) -> bool {
        &&& plain.payload.len() <= MAX_FRAGMENT_LEN
        &&& self.kind == Protection::Tls13 ==> plain.typ.canonical() && plain.typ.wire() != 0
    }
}

/// The reason given for a TLS 1.3 plaintext that holds no content type.
pub open spec fn bad_inner_plaintext() -> Seq<char> {
    "peer sent bad TLSInnerPlaintext"@
}

/// A plaintext that ends in a byte other than zero has no padding.
proof fn lemma_no_padding(p: Seq<u8>)
    requires
        p.len() > 0,
        p.last() != 0,
    ensures
        trailing_zeros(p) == 0,
{
}

/// Two sequence numbers that give the same nonce under one IV are the same
/// number: within one key, a nonce is never used for two sequence numbers.
pub proof fn lemma_nonce_injective(iv: Seq<u8>, a: u64, b: u64)
    requires
        iv.len() == NONCE_LEN,
        xor_nonce(iv, a) == xor_nonce(iv, b),
    ensures
        a == b,
{
    let x = u64_bytes(a);
    let y = u64_bytes(b);
    assert forall|k: int| 0 <= k < 8 implies x[k] == y[k] by {
        let i = iv[k + 4];
        let p = x[k];
        let q = y[k];
        assert(xor_nonce(iv, a)[k + 4] == i ^ p);
        assert(xor_nonce(iv, b)[k + 4] == i ^ q);
        assert(i ^ p == i ^ q ==> p == q) by (bit_vector);
    }
    assert(x =~= y);
    lemma_u64_bytes_injective(a, b);
}

/// The nonce for sequence number `seq` over the nonce base `iv`.
pub fn make_nonce(iv: &[u8; 12], seq: u64) -> (r: [u8; 12])
    ensures
        r@ == xor_nonce(iv@, seq),
{
    let mut s: Vec<u8> = Vec::new();
    put_u64(seq, &mut s);
    let mut nonce = [0u8;12];
    let mut i: usize = 0;
    while i < 12
        invariant
            i <= 12,
            s@ == u64_bytes(seq),
            forall|j: int| 0 <= j < i ==> nonce@[j] == xor_nonce(iv@, seq)[j],
        decreases 12 - i,
    {
        if i < 4 {
            nonce[i] = iv[i];
        } else {
            nonce[i] = iv[i] ^ s[i - 4];
        }
        i = i + 1;
    }
    assert(nonce@ =~= xor_nonce(iv@, seq));
    nonce
}

/// The additional data of a TLS 1.2 record.
fn make_tls12_aad(seq: u64, typ: ContentType, version: ProtocolVersion, len: usize) -> (r: Vec<u8>)
    requires
        len <= 0xffff,
    ensures
        r@ == tls12_aad(seq, typ, version, len as nat),
{
    let mut out: Vec<u8> = Vec::new();
    put_u64(seq, &mut out);
    out.push(typ.get_u8());
    put_u16(version.get_u16(), &mut out);
    put_u16(len as u16, &mut out);
    assert(out@ =~= tls12_aad(seq, typ, version, len as nat));
    out
}

/// The additional data of a TLS 1.3 record.
fn make_tls13_aad(len: usize) -> (r: Vec<u8>)
    requires
        len <= 0xffff,
    ensures
        r@ == tls13_aad(len as nat),
{
    let mut out: Vec<u8> = Vec::new();
    out.push(0x17);
    out.push(0x03);
    out.push(0x03);
    put_u16(len as u16, &mut out);
    assert(out@ =~= tls13_aad(len as nat));
    out
}

/// The keying of one direction of a connection: the scheme, its key, and
/// the base that nonces are derived from. The key has the length that the
/// scheme asks for.
#[derive(Debug)]
pub struct RecordCipher {
    kind: Protection,
    alg: BulkAlgorithm,
    key: Vec<u8>,
    iv: [u8; 12],
}

impl View for RecordCipher {
    type V = CipherView;

    closed spec fn view(&self) -> CipherView {
        CipherView { kind: self.kind, alg: self.alg, key: self.key@, iv: self.iv@ }
    }
}

impl RecordCipher {
    #[verifier::type_invariant]
    spec fn key_fits(self) -> bool {
        self.key@.len() == self.alg.key_len()
    }

    /// A record protection with the given key and nonce base. For TLS 1.2
    /// GCM the first four bytes of `iv` are the fixed part. `None` where the
    /// key does not have the length that the scheme asks for.
    pub fn new(kind: Protection, alg: BulkAlgorithm, key: Vec<u8>, iv: [u8; 12]) -> (r: Option<
        RecordCipher,
    >)
        ensures
            r is Some <==> key@.len() == alg.key_len(),
            r matches Some(c) ==> c@ == (CipherView { kind, alg, key: key@, iv: iv@ }) && c@.valid(),
    {
        if key.len() == crate::crypto::aead_key_len(alg) {
            Some(RecordCipher { kind, alg, key, iv })
        } else {
            None
        }
    }

    /// Protects `m` under sequence number `seq`. What comes out opens again,
    /// under the same keying and sequence number, to what was put in.
    pub fn encrypt(&self, m: BorrowedPlainMessage<'_>, seq: u64) -> (out: OpaqueMessage)
        requires
            m@.payload.len() <= MAX_FRAGMENT_LEN,
        ensures
            self@.valid(),
            out@ == self@.encrypted(seq, m@),
            out@.payload.len() <= m@.payload.len() + GCM_EXPLICIT_NONCE_LEN + TAG_LEN + 1,
            self@.sendable(m@) ==> self@.decrypted(seq, out@) == Ok::<RecordView, ErrorView>(
                self@.delivered(m@),
            ),
    {
        proof {
            use_type_invariant(self);
        }
        let nonce = make_nonce(&self.iv, seq);
        match self.kind {
            Protection::Tls12Gcm => {
                let aad = make_tls12_aad(seq, m.typ, m.version, m.payload.len());
                let sealed = aead_seal(
                    self.alg,
                    self.key.as_slice(),
                    &nonce,
                    aad.as_slice(),
                    m.payload,
                );
                let mut payload: Vec<u8> = Vec::new();
                put_bytes(slice_subrange(nonce.as_slice(), 4, 12), &mut payload);
                put_bytes(sealed.as_slice(), &mut payload);
                proof {
                    assert(payload@ =~= nonce@.skip(4) + sealed@);
                    assert(self.iv@.take(4) + payload@.take(GCM_EXPLICIT_NONCE_LEN as int) =~= nonce@);
                    assert(payload@.skip(GCM_EXPLICIT_NONCE_LEN as int) =~= sealed@);
                }
                OpaqueMessage { typ: m.typ, version: m.version, payload }
            },
            Protection::Tls12ChaCha => {
                let aad = make_tls12_aad(seq, m.typ, m.version, m.payload.len());
                let payload = aead_seal(
                    self.alg,
                    self.key.as_slice(),
                    &nonce,
                    aad.as_slice(),
                    m.payload,
                );
                OpaqueMessage { typ: m.typ, version: m.version, payload }
            },
            Protection::Tls13 => {
                let mut inner: Vec<u8> = Vec::new();
                put_bytes(m.payload, &mut inner);
                inner.push(m.typ.get_u8());
                assert(inner@ =~= m@.payload.push(m.typ.wire()));
                let aad = make_tls13_aad(inner.len() + TAG_LEN);
                let payload = aead_seal(
                    self.alg,
                    self.key.as_slice(),
                    &nonce,
                    aad.as_slice(),
                    inner.as_slice(),
                );
                proof {
                    if self@.sendable(m@) {
                        lemma_no_padding(inner@);
                        assert(inner@.take(inner@.len() as int) =~= inner@);
                        assert(inner@.drop_last() =~= m@.payload);
                    }
                }
                OpaqueMessage {
                    typ: ContentType::ApplicationData,
                    version: ProtocolVersion::TLSv1_2,
                    payload,
                }
            },
        }
    }

    /// Opens `m` under sequence number `seq` and checks what comes out.
    pub fn decrypt(&self, m: OpaqueMessage, seq: u64) -> (r: Result<PlainMessage, Error>)
        ensures
            match r {
                Ok(p) => self@.decrypted(seq, m@) == Ok::<RecordView, ErrorView>(p@),
                Err(e) => self@.decrypted(seq, m@) == Err::<RecordView, ErrorView>(e@),
            },
    {
        proof {
            use_type_invariant(self);
        }
        let typ = m.typ;
        let version = m.version;
        let payload = m.payload;
        let len = payload.len();
        if len > MAX_CIPHERTEXT_LEN {
            return Err(Error::PeerSentOversizedRecord);
        }
        match self.kind {
            Protection::Tls12Gcm => {
                if len < GCM_EXPLICIT_NONCE_LEN + TAG_LEN {
                    return Err(Error::DecryptError);
                }
                let mut nonce = [0u8;12];
                let mut i: usize = 0;
                while i < 12
                    invariant
                        i <= 12,
                        len == payload@.len(),
                        len >= GCM_EXPLICIT_NONCE_LEN + TAG_LEN,
                        forall|j: int|
                            0 <= j < i ==> nonce@[j] == (self.iv@.take(4) + payload@.take(
                                GCM_EXPLICIT_NONCE_LEN as int,
                            ))[j],
                    decreases 12 - i,
                {
                    if i < 4 {
                        nonce[i] = self.iv[i];
                    } else {
                        nonce[i] = payload[i - 4];
                    }
                    i = i + 1;
                }
                assert(nonce@ =~= self.iv@.take(4) + payload@.take(GCM_EXPLICIT_NONCE_LEN as int));
                let aad = make_tls12_aad(seq, typ, version, len - GCM_EXPLICIT_NONCE_LEN - TAG_LEN);
                let sealed = slice_subrange(payload.as_slice(), GCM_EXPLICIT_NONCE_LEN, len);
                assert(sealed@ =~= payload@.skip(GCM_EXPLICIT_NONCE_LEN as int));
                match aead_open(self.alg, self.key.as_slice(), &nonce, aad.as_slice(), sealed) {
                    None => Err(Error::DecryptError),
                    Some(plain) => {
                        if plain.len() > MAX_FRAGMENT_LEN {
                            Err(Error::PeerSentOversizedRecord)
                        } else {
                            Ok(PlainMessage { typ, version, payload: plain })
                        }
                    },
                }
            },
            Protection::Tls12ChaCha => {
                if len < TAG_LEN {
                    return Err(Error::DecryptError);
                }
                let nonce = make_nonce(&self.iv, seq);
                let aad = make_tls12_aad(seq, typ, version, len - TAG_LEN);
                match aead_open(
                    self.alg,
                    self.key.as_slice(),
                    &nonce,
                    aad.as_slice(),
                    payload.as_slice(),
                ) {
                    None => Err(Error::DecryptError),
                    Some(plain) => {
                        if plain.len() > MAX_FRAGMENT_LEN {
                            Err(Error::PeerSentOversizedRecord)
                        } else {
                            Ok(PlainMessage { typ, version, payload: plain })
                        }
                    },
                }
            },
            Protection::Tls13 => {
                if len < TAG_LEN {
                    return Err(Error::DecryptError);
                }
                let nonce = make_nonce(&self.iv, seq);
                let aad = make_tls13_aad(len);
                match aead_open(
                    self.alg,
                    self.key.as_slice(),
                    &nonce,
                    aad.as_slice(),
                    payload.as_slice(),
                ) {
                    None => Err(Error::DecryptError),
                    Some(mut plain) => {
                        if plain.len() > MAX_FRAGMENT_LEN + 1 {
                            return Err(Error::PeerSentOversizedRecord);
                        }
                        let ghost full = plain@;
                        let mut end = plain.len();
                        proof {
                            assert(full.take(end as int) =~= full);
                        }
                        while end > 0 && plain[end - 1] == 0
                            invariant
                                end <= plain@.len(),
                                plain@ == full,
                                trailing_zeros(full) == (full.len() - end) + trailing_zeros(
                                    full.take(end as int),
                                ),
                            decreases end,
                        {
                            proof {
                                assert(full.take(end as int).drop_last() =~= full.take(end - 1));
                            }
                            end = end - 1;
                        }
                        proof {
                            if end > 0 {
                                assert(full.take(end as int).last() == full[end - 1]);
                            }
                            assert(trailing_zeros(full.take(end as int)) == 0);
                        }
                        if end == 0 {
                            proof {
                                reveal_strlit("peer sent bad TLSInnerPlaintext");
                            }
                            return Err(Error::peer_misbehaved("peer sent bad TLSInnerPlaintext"));
                        }
                        if end - 1 > MAX_FRAGMENT_LEN {
                            return Err(Error::PeerSentOversizedRecord);
                        }
                        let inner_typ = ContentType::from_u8(plain[end - 1]);
                        plain.truncate(end - 1);
                        proof {
                            assert(plain@ =~= full.take(end as int).drop_last());
                        }
                        Ok(
                            PlainMessage {
                                typ: inner_typ,
                                version: ProtocolVersion::TLSv1_3,
                                payload: plain,
                            },
                        )
                    },
                }
            },
        }
    }
}

/// How a TLS 1.2 suite with the given bulk scheme protects its records.
pub open spec fn tls12_protection(bulk: BulkAlgorithm) -> Protection {
    match bulk {
        BulkAlgorithm::Chacha20Poly1305 => Protection::Tls12ChaCha,
        _ => Protection::Tls12Gcm,
    }
}

/// `iv` followed by as many zero bytes as it lacks to the length of a nonce.
pub open spec fn zero_padded(iv: Seq<u8>) -> Seq<u8> {
    iv + Seq::new((NONCE_LEN - iv.len()) as nat, |i: int| 0u8)
}

/// The keyings that a TLS 1.2 key block gives, for reading and for writing.
/// The block holds, in this order, the client's key, the server's key, the
/// client's fixed IV, the server's fixed IV, and the bytes that start the
/// writer's explicit nonce. Each side writes with its own key and IV and
/// reads with the other's.
pub open spec fn tls12_ciphers(key_block: Seq<u8>, bulk: BulkAlgorithm, we_are_client: bool) -> (
    CipherView,
    CipherView,
) {
    let k = bulk.key_len() as int;
    let v = bulk.spec_fixed_iv_len() as int;
    let client_key = key_block.subrange(0, k);
    let server_key = key_block.subrange(k, 2 * k);
    let client_iv = key_block.subrange(2 * k, 2 * k + v);
    let server_iv = key_block.subrange(2 * k + v, 2 * k + 2 * v);
    let extra = key_block.skip(2 * k + 2 * v);
    let kind = tls12_protection(bulk);
    if we_are_client {
        (
            CipherView { kind, alg: bulk, key: server_key, iv: zero_padded(server_iv) },
            CipherView { kind, alg: bulk, key: client_key, iv: client_iv + extra },
        )
    } else {
        (
            CipherView { kind, alg: bulk, key: client_key, iv: zero_padded(client_iv) },
            CipherView { kind, alg: bulk, key: server_key, iv: server_iv + extra },
        )
    }
}

/// Twelve bytes: the bytes of `head`, then those of `tail`, then zeros.
fn iv_from_parts(head: &[u8], tail: &[u8]) -> (r: [u8; 12])
    requires
        head@.len() + tail@.len() <= NONCE_LEN,
    ensures
        r@ == zero_padded(head@ + tail@),
{
    let mut iv = [0u8;12];
    let a = head.len();
    let b = tail.len();
    let mut i: usize = 0;
    while i < 12
        invariant
            i <= 12,
            a == head@.len(),
            b == tail@.len(),
            a + b <= 12,
            forall|j: int| 0 <= j < i ==> iv@[j] == zero_padded(head@ + tail@)[j],
        decreases 12 - i,
    {
        if i < a {
            iv[i] = head[i];
        } else if i < a + b {
            iv[i] = tail[i - a];
        } else {
            iv[i] = 0;
        }
        i = i + 1;
    }
    assert(iv@ =~= zero_padded(head@ + tail@));
    iv
}

/// Makes the pair of keyings for a TLS 1.2 connection from its secrets: the
/// one to read with, and the one to write with.
pub fn new_tls12(secrets: &ConnectionSecrets) -> (r: (RecordCipher, RecordCipher))
    ensures
        (r.0@, r.1@) == tls12_ciphers(
            secrets.key_block(),
            secrets.suite.common.bulk,
            secrets.randoms.we_are_client,
        ),
        r.0@.valid(),
        r.1@.valid(),
{
    // Make a key block, and chop it up.
    let key_block = secrets.make_key_block();
    let bulk = secrets.suite.common.bulk;
    let kind = match bulk {
        BulkAlgorithm::Chacha20Poly1305 => Protection::Tls12ChaCha,
        _ => Protection::Tls12Gcm,
    };
    let k = crate::crypto::aead_key_len(bulk);
    let v = bulk.fixed_iv_len();
    let kb = key_block.as_slice();
    let client_write_key = slice_subrange(kb, 0, k);
    let server_write_key = slice_subrange(kb, k, 2 * k);
    let client_write_iv = slice_subrange(kb, 2 * k, 2 * k + v);
    let server_write_iv = slice_subrange(kb, 2 * k + v, 2 * k + 2 * v);
    let extra = slice_subrange(kb, 2 * k + 2 * v, kb.len());
    assert(extra@ =~= kb@.skip(2 * k + 2 * v));
    let empty: Vec<u8> = Vec::new();

    let (write_key, write_iv, read_key, read_iv) = if secrets.randoms.we_are_client {
        (client_write_key, client_write_iv, server_write_key, server_write_iv)
    } else {
        (server_write_key, server_write_iv, client_write_key, client_write_iv)
    };
    let dec_iv = iv_from_parts(read_iv, empty.as_slice());
    let enc_iv = iv_from_parts(write_iv, extra);
    proof {
        assert(read_iv@ + empty@ =~= read_iv@);
        assert(zero_padded(write_iv@ + extra@) =~= write_iv@ + extra@);
    }
    let dec = RecordCipher::new(kind, bulk, slice_to_vec(read_key), dec_iv);
    let enc = RecordCipher::new(kind, bulk, slice_to_vec(write_key), enc_iv);
    (dec.unwrap(), enc.unwrap())
}

} // verus!
