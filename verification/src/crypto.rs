use crate::suites::BulkAlgorithm;
use vstd::prelude::*;

verus! {

/// The length of the authentication tag that sealing appends.
pub const TAG_LEN: usize = 16;

/// The length of an AEAD nonce.
pub const NONCE_LEN: usize = 12;

/// The longest plaintext that is sealed in one piece.
pub const MAX_SEAL_INPUT: usize = 0xffff;

/// A hash function, as used for HMAC and the TLS 1.2 PRF.
#[derive(Clone, Copy, Debug, PartialEq, Eq, Structural)]
pub enum HashAlgorithm {
    /// SHA-256.
    Sha256,
    /// SHA-384.
    Sha384,
}

impl HashAlgorithm {
    /// The length of a digest, in bytes.
    pub open spec fn output_len(self) -> nat {
        match self {
            HashAlgorithm::Sha256 => 32,
            HashAlgorithm::Sha384 => 48,
        }
    }
}

/// The ciphertext and tag that sealing `plain` gives under the scheme, key,
/// nonce and additional data.
pub uninterp spec fn aead_sealed(
    alg: BulkAlgorithm,
    key: Seq<u8>,
    nonce: Seq<u8>,
    aad: Seq<u8>,
    plain: Seq<u8>,
) -> Seq<u8>;

/// The plaintext that opening `sealed` gives under the scheme, key, nonce
/// and additional data, or `None` where it does not authenticate.
pub uninterp spec fn aead_opened(
    alg: BulkAlgorithm,
    key: Seq<u8>,
    nonce: Seq<u8>,
    aad: Seq<u8>,
    sealed: Seq<u8>,
) -> Option<Seq<u8>>;

/// The HMAC of `data` under `key` with the given hash function.
pub uninterp spec fn hmac_tag(alg: HashAlgorithm, key: Seq<u8>, data: Seq<u8>) -> Seq<u8>;

/// Calls `ring::aead::Algorithm::key_len` on the scheme's algorithm. Trusted:
/// that it is 16 bytes for AES-128-GCM and 32 bytes for AES-256-GCM and
/// ChaCha20-Poly1305.
#[verifier::external_body]
pub(crate) fn aead_key_len(alg: BulkAlgorithm) -> (r: usize)
    ensures
        r == alg.key_len(),
{
    match alg {
        BulkAlgorithm::Aes128Gcm => ring::aead::AES_128_GCM.key_len(),
        BulkAlgorithm::Aes256Gcm => ring::aead::AES_256_GCM.key_len(),
        BulkAlgorithm::Chacha20Poly1305 => ring::aead::CHACHA20_POLY1305.key_len(),
    }
}

/// Calls `ring::aead::LessSafeKey::seal_in_place_append_tag` on a copy of
/// `plain`, with a key made from `key`. Trusted: that the result is a
/// function of the arguments alone, that it is 16 bytes longer than the
/// plaintext, and that opening it under the same scheme, key, nonce and
/// additional data gives the plaintext back.
#[verifier::external_body]
pub(crate) fn aead_seal(
    alg: BulkAlgorithm,
    key: &[u8],
    nonce: &[u8; 12],
    aad: &[u8],
    plain: &[u8],
) -> (out: Vec<u8>)
    requires
        key@.len() == alg.key_len(),
        plain@.len() <= MAX_SEAL_INPUT,
    ensures
        out@ == aead_sealed(alg, key@, nonce@, aad@, plain@),
        out@.len() == plain@.len() + TAG_LEN,
        aead_opened(alg, key@, nonce@, aad@, out@) == Some(plain@),
{
    let algorithm = match alg {
        BulkAlgorithm::Aes128Gcm => &ring::aead::AES_128_GCM,
        BulkAlgorithm::Aes256Gcm => &ring::aead::AES_256_GCM,
        BulkAlgorithm::Chacha20Poly1305 => &ring::aead::CHACHA20_POLY1305,
    };
    let k = ring::aead::LessSafeKey::new(ring::aead::UnboundKey::new(algorithm, key).unwrap());
    let mut buf = plain.to_vec();
    let n = ring::aead::Nonce::assume_unique_for_key(*nonce);
    k.seal_in_place_append_tag(n, ring::aead::Aad::from(aad), &mut buf).unwrap();
    buf
}

/// Calls `ring::aead::LessSafeKey::open_in_place` on a copy of `sealed`,
/// with a key made from `key`. Trusted: that the result is a function of the
/// arguments alone, and that a plaintext that comes out is 16 bytes shorter
/// than what went in.
#[verifier::external_body]
pub(crate) fn aead_open(
    alg: BulkAlgorithm,
    key: &[u8],
    nonce: &[u8; 12],
    aad: &[u8],
    sealed: &[u8],
) -> (out: Option<Vec<u8>>)
    requires
        key@.len() == alg.key_len(),
    ensures
        match out {
            Some(p) => aead_opened(alg, key@, nonce@, aad@, sealed@) == Some(p@) && p@.len()
                + TAG_LEN == sealed@.len(),
            None => aead_opened(alg, key@, nonce@, aad@, sealed@) is None,
        },
{
    let algorithm = match alg {
        BulkAlgorithm::Aes128Gcm => &ring::aead::AES_128_GCM,
        BulkAlgorithm::Aes256Gcm => &ring::aead::AES_256_GCM,
        BulkAlgorithm::Chacha20Poly1305 => &ring::aead::CHACHA20_POLY1305,
    };
    let k = ring::aead::LessSafeKey::new(ring::aead::UnboundKey::new(algorithm, key).unwrap());
    let mut buf = sealed.to_vec();
    let n = ring::aead::Nonce::assume_unique_for_key(*nonce);
    let len = k.open_in_place(n, ring::aead::Aad::from(aad), &mut buf).ok()?.len();
    buf.truncate(len);
    Some(buf)
}

/// Calls `ring::hmac::sign` with a key made from `key`. Trusted: that the
/// result is a function of the arguments alone, and as long as a digest of
/// the hash function.
#[verifier::external_body]
pub(crate) fn hmac_sign(alg: HashAlgorithm, key: &[u8], data: &[u8]) -> (out: Vec<u8>)
    ensures
        out@ == hmac_tag(alg, key@, data@),
        out@.len() == alg.output_len(),
{
    let algorithm = match alg {
        HashAlgorithm::Sha256 => ring::hmac::HMAC_SHA256,
        HashAlgorithm::Sha384 => ring::hmac::HMAC_SHA384,
    };
    let k = ring::hmac::Key::new(algorithm, key);
    ring::hmac::sign(&k, data).as_ref().to_vec()
}

} // verus!
