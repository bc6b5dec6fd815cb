use crate::crypto::HashAlgorithm;
use crate::msgs::enums::{
    CipherSuite, KeyExchangeAlgorithm, ProtocolVersion, SignatureAlgorithm, SignatureScheme,
};
use vstd::prelude::*;

verus! {

/// Bulk symmetric encryption scheme used by a cipher suite.
#[derive(Clone, Copy, Debug, PartialEq, Eq, Structural)]
pub enum BulkAlgorithm {
    /// AES with 128-bit keys in Galois counter mode.
    Aes128Gcm,
    /// AES with 256-bit keys in Galois counter mode.
    Aes256Gcm,
    /// Chacha20 for confidentiality with poly1305 for authenticity.
    Chacha20Poly1305,
}

impl BulkAlgorithm {
    /// The length of a key of the scheme, in bytes.
    pub open spec fn key_len(self) -> nat {
        match self {
            BulkAlgorithm::Aes128Gcm => 16,
            BulkAlgorithm::Aes256Gcm => 32,
            BulkAlgorithm::Chacha20Poly1305 => 32,
        }
    }

    /// How many bytes of the TLS 1.2 key block make the fixed part of each
    /// direction's nonce.
    pub open spec fn spec_fixed_iv_len(self) -> usize {
        match self {
            BulkAlgorithm::Aes128Gcm => 4,
            BulkAlgorithm::Aes256Gcm => 4,
            BulkAlgorithm::Chacha20Poly1305 => 12,
        }
    }

    /// How many bytes of nonce travel with each TLS 1.2 record.
    pub open spec fn spec_explicit_nonce_len(self) -> usize {
        match self {
            BulkAlgorithm::Aes128Gcm => 8,
            BulkAlgorithm::Aes256Gcm => 8,
            BulkAlgorithm::Chacha20Poly1305 => 0,
        }
    }

    #[verifier::when_used_as_spec(spec_fixed_iv_len)]
    pub fn fixed_iv_len(self) -> (r: usize)
        ensures
            r == self.spec_fixed_iv_len(),
    {
        match self {
            BulkAlgorithm::Aes128Gcm => 4,
            BulkAlgorithm::Aes256Gcm => 4,
            BulkAlgorithm::Chacha20Poly1305 => 12,
        }
    }

    #[verifier::when_used_as_spec(spec_explicit_nonce_len)]
    pub fn explicit_nonce_len(self) -> (r: usize)
        ensures
            r == self.spec_explicit_nonce_len(),
    {
        match self {
            BulkAlgorithm::Aes128Gcm => 8,
            BulkAlgorithm::Aes256Gcm => 8,
            BulkAlgorithm::Chacha20Poly1305 => 0,
        }
    }
}

/// Common state for cipher suites (both for TLS 1.2 and TLS 1.3)
#[derive(Clone, Copy, Debug, PartialEq, Eq, Structural)]
pub struct CipherSuiteCommon {
    /// The TLS enumeration naming this cipher suite.
    pub suite: CipherSuite,
    /// How to do bulk encryption.
    pub bulk: BulkAlgorithm,
}

/// A TLS 1.3 cipher suite.
#[derive(Clone, Copy, Debug, Eq)]
pub struct Tls13CipherSuite {
    pub common: CipherSuiteCommon,
    /// The hash function of the suite's key derivation.
    pub hkdf_algorithm: HashAlgorithm,
}

impl PartialEq for Tls13CipherSuite {
    fn eq(&self, other: &Self) -> (r: bool) {
        self.common.suite == other.common.suite
    }
}

impl vstd::std_specs::cmp::PartialEqSpecImpl for Tls13CipherSuite {
    open spec fn obeys_eq_spec() -> bool {
        true
    }

    open spec fn eq_spec(&self, other: &Self) -> bool {
        self.common.suite == other.common.suite
    }
}

impl Tls13CipherSuite {
    /// The protocol version that the suite belongs to.
    pub open spec fn version() -> ProtocolVersion {
        ProtocolVersion::TLSv1_3
    }

    /// Which hash function to use with this suite.
    pub fn get_hash(&self) -> (r: HashAlgorithm)
        ensures
            r == self.hkdf_algorithm,
    {
        self.hkdf_algorithm
    }

    /// Can a session using suite self resume from suite prev? It can when
    /// `prev` is a TLS 1.3 suite with the same hash function; the answer is
    /// then that suite.
    pub fn can_resume_from(&self, prev: SupportedCipherSuite) -> (r: Option<Tls13CipherSuite>)
        ensures
            r == match prev {
                SupportedCipherSuite::Tls13(inner) => if inner.hkdf_algorithm
                    == self.hkdf_algorithm {
                    Some(inner)
                } else {
                    None
                },
                SupportedCipherSuite::Tls12(_) => None,
            },
    {
        match prev {
            SupportedCipherSuite::Tls13(inner) => {
                if inner.get_hash() == self.get_hash() {
                    Some(inner)
                } else {
                    None
                }
            },
            SupportedCipherSuite::Tls12(_) => None,
        }
    }
}

/// A TLS 1.2 cipher suite.
#[derive(Clone, Copy, Debug, Eq)]
pub struct Tls12CipherSuite {
    pub common: CipherSuiteCommon,
    /// The hash function of the suite's PRF.
    pub hmac_algorithm: HashAlgorithm,
    /// How to exchange/agree keys.
    pub kx: KeyExchangeAlgorithm,
    /// How to sign messages for authentication.
    pub sign: &'static [SignatureScheme],
}

impl PartialEq for Tls12CipherSuite {
    fn eq(&self, other: &Self) -> (r: bool) {
        self.common.suite == other.common.suite
    }
}

impl vstd::std_specs::cmp::PartialEqSpecImpl for Tls12CipherSuite {
    open spec fn obeys_eq_spec() -> bool {
        true
    }

    open spec fn eq_spec(&self, other: &Self) -> bool {
        self.common.suite == other.common.suite
    }
}

/// True when `x` occurs in `list`.
fn contains_scheme(list: &[SignatureScheme], x: SignatureScheme) -> (r: bool)
    ensures
        r == list@.contains(x),
{
    let mut i: usize = 0;
    while i < list.len()
        invariant
            i <= list@.len(),
            forall|k: int| 0 <= k < i ==> list@[k] != x,
        decreases list@.len() - i,
    {
        if list[i] == x {
            return true;
        }
        i = i + 1;
    }
    false
}

impl Tls12CipherSuite {
    /// The protocol version that the suite belongs to.
    pub open spec fn version() -> ProtocolVersion {
        ProtocolVersion::TLSv1_2
    }

    /// How long the fixed part of the 'IV' is.
    pub fn fixed_iv_len(&self) -> (r: usize)
        ensures
            r == self.common.bulk.spec_fixed_iv_len(),
    {
        self.common.bulk.fixed_iv_len()
    }

    /// How many bytes the key block provides as the initial explicit nonce.
    pub fn explicit_nonce_len(&self) -> (r: usize)
        ensures
            r == self.common.bulk.spec_explicit_nonce_len(),
    {
        self.common.bulk.explicit_nonce_len()
    }

    /// Resolve the set of supported `SignatureScheme`s from the
    /// offered `SupportedSignatureSchemes`: the suite's own schemes, in the
    /// suite's order, that are among those offered. If we return an empty
    /// set, the handshake terminates.
    pub fn resolve_sig_schemes(&self, offered: &[SignatureScheme]) -> (r: Vec<SignatureScheme>)
        ensures
            r@ == self.sign@.filter(|pref: SignatureScheme| offered@.contains(pref)),
    {
        let ghost pred = |pref: SignatureScheme| offered@.contains(pref);
        let mut out: Vec<SignatureScheme> = Vec::new();
        let mut i: usize = 0;
        proof {
            reveal_with_fuel(Seq::<_>::filter, 2);
            assert(self.sign@.take(0).filter(pred) =~= Seq::<SignatureScheme>::empty());
        }
        while i < self.sign.len()
            invariant
                i <= self.sign@.len(),
                pred == (|pref: SignatureScheme| offered@.contains(pref)),
                out@ == self.sign@.take(i as int).filter(pred),
            decreases self.sign@.len() - i,
        {
            let pref = self.sign[i];
            proof {
                reveal_with_fuel(Seq::<_>::filter, 2);
                assert(self.sign@.take(i + 1).drop_last() =~= self.sign@.take(i as int));
                assert(self.sign@.take(i + 1).last() == pref);
            }
            if contains_scheme(offered, pref) {
                out.push(pref);
            }
            i = i + 1;
        }
        assert(self.sign@.take(i as int) =~= self.sign@);
        out
    }

    /// Which hash function to use with this suite.
    pub fn get_hash(&self) -> (r: HashAlgorithm)
        ensures
            r == self.hmac_algorithm,
    {
        self.hmac_algorithm
    }
}

/// A cipher suite supported by this library.
///
/// All possible instances of this type are provided by the library in
/// [`all_cipher_suites`].
#[derive(Clone, Copy, Debug, PartialEq)]
pub enum SupportedCipherSuite {
    /// A TLS 1.2 cipher suite
    Tls12(Tls12CipherSuite),
    /// A TLS 1.3 cipher suite
    Tls13(Tls13CipherSuite),
}

impl From<Tls13CipherSuite> for SupportedCipherSuite {
    fn from(s: Tls13CipherSuite) -> (r: Self) {
        SupportedCipherSuite::Tls13(s)
    }
}

impl vstd::std_specs::convert::FromSpecImpl<Tls13CipherSuite> for SupportedCipherSuite {
    open spec fn obeys_from_spec() -> bool {
        true
    }

    open spec fn from_spec(s: Tls13CipherSuite) -> Self {
        SupportedCipherSuite::Tls13(s)
    }
}

impl From<Tls12CipherSuite> for SupportedCipherSuite {
    fn from(s: Tls12CipherSuite) -> (r: Self) {
        SupportedCipherSuite::Tls12(s)
    }
}

impl vstd::std_specs::convert::FromSpecImpl<Tls12CipherSuite> for SupportedCipherSuite {
    open spec fn obeys_from_spec() -> bool {
        true
    }

    open spec fn from_spec(s: Tls12CipherSuite) -> Self {
        SupportedCipherSuite::Tls12(s)
    }
}

impl SupportedCipherSuite {
    /// The parts that the suites of both versions have.
    pub open spec fn spec_common(self) -> CipherSuiteCommon {
        match self {
            SupportedCipherSuite::Tls12(inner) => inner.common,
            SupportedCipherSuite::Tls13(inner) => inner.common,
        }
    }

    /// The cipher suite's identifier
    pub open spec fn spec_suite(self) -> CipherSuite {
        self.spec_common().suite
    }

    /// True when the suite can be used with the protocol version: a TLS 1.3
    /// suite with version 1.3 and no other, a TLS 1.2 suite with version 1.2
    /// and no other.
    pub open spec fn spec_usable_for_version(self, version: ProtocolVersion) -> bool {
        match self {
            SupportedCipherSuite::Tls12(_) => version == ProtocolVersion::TLSv1_2,
            SupportedCipherSuite::Tls13(_) => version == ProtocolVersion::TLSv1_3,
        }
    }

    /// True when the suite can be used with a key that only signs with
    /// `sigalg`: every TLS 1.3 suite can, and a TLS 1.2 suite when one of its
    /// signature schemes signs with `sigalg`.
    pub open spec fn spec_usable_for_sigalg(self, sigalg: SignatureAlgorithm) -> bool {
        match self {
            SupportedCipherSuite::Tls13(_) => true,
            SupportedCipherSuite::Tls12(inner) => exists|i: int|
                0 <= i < inner.sign@.len() && (#[trigger] inner.sign@[i]).spec_sign() == sigalg,
        }
    }

    /// Which hash function to use with this suite.
    pub fn get_hash(&self) -> (r: HashAlgorithm)
        ensures
            r == match *self {
                SupportedCipherSuite::Tls12(inner) => inner.hmac_algorithm,
                SupportedCipherSuite::Tls13(inner) => inner.hkdf_algorithm,
            },
    {
        match self {
            SupportedCipherSuite::Tls12(inner) => inner.get_hash(),
            SupportedCipherSuite::Tls13(inner) => inner.get_hash(),
        }
    }

    /// The cipher suite's identifier
    #[verifier::when_used_as_spec(spec_suite)]
    pub fn suite(self) -> (r: CipherSuite)
        ensures
            r == self.spec_suite(),
    {
        self.common().suite
    }

    #[verifier::when_used_as_spec(spec_common)]
    pub fn common(self) -> (r: CipherSuiteCommon)
        ensures
            r == self.spec_common(),
    {
        match self {
            SupportedCipherSuite::Tls12(inner) => inner.common,
            SupportedCipherSuite::Tls13(inner) => inner.common,
        }
    }

    /// The suite, where it is a TLS 1.3 suite.
    pub fn tls13(&self) -> (r: Option<Tls13CipherSuite>)
        ensures
            r == match *self {
                SupportedCipherSuite::Tls12(_) => None,
                SupportedCipherSuite::Tls13(inner) => Some(inner),
            },
    {
        match self {
            SupportedCipherSuite::Tls12(_) => None,
            SupportedCipherSuite::Tls13(inner) => Some(*inner),
        }
    }

    /// Return true if this suite is usable for TLS `version`.
    #[verifier::when_used_as_spec(spec_usable_for_version)]
    pub fn usable_for_version(self, version: ProtocolVersion) -> (r: bool)
        ensures
            r == self.spec_usable_for_version(version),
    {
        match self {
            SupportedCipherSuite::Tls12(_) => version == ProtocolVersion::TLSv1_2,
            SupportedCipherSuite::Tls13(_) => version == ProtocolVersion::TLSv1_3,
        }
    }

    /// Return true if this suite is usable for a key only offering `sigalg`
    /// signatures.  This resolves to true for all TLS1.3 suites.
    #[verifier::when_used_as_spec(spec_usable_for_sigalg)]
    pub fn usable_for_sigalg(self, sigalg: SignatureAlgorithm) -> (r: bool)
        ensures
            r == self.spec_usable_for_sigalg(sigalg),
    {
        match self {
            SupportedCipherSuite::Tls13(_) => true,
            SupportedCipherSuite::Tls12(inner) => {
                let mut i: usize = 0;
                while i < inner.sign.len()
                    invariant
                        i <= inner.sign@.len(),
                        self == SupportedCipherSuite::Tls12(inner),
                        forall|k: int| 0 <= k < i ==> (#[trigger] inner.sign@[k]).spec_sign() != sigalg,
                    decreases inner.sign@.len() - i,
                {
                    if inner.sign[i].sign() == sigalg {
                        assert(inner.sign@[i as int].spec_sign() == sigalg);
                        return true;
                    }
                    i = i + 1;
                }
                false
            },
        }
    }
}

/// The signature schemes of the ECDSA suites, most preferred first.
pub open spec fn ecdsa_schemes() -> Seq<SignatureScheme> {
    seq![
        SignatureScheme::ED25519,
        SignatureScheme::ECDSA_NISTP521_SHA512,
        SignatureScheme::ECDSA_NISTP384_SHA384,
        SignatureScheme::ECDSA_NISTP256_SHA256,
    ]
}

/// The signature schemes of the ECDSA suites, most preferred first.
pub fn tls12_ecdsa_schemes() -> (r: &'static [SignatureScheme])
    ensures
        r@ == ecdsa_schemes(),
{
    let r: &'static [SignatureScheme] = &[
        SignatureScheme::ED25519,
        SignatureScheme::ECDSA_NISTP521_SHA512,
        SignatureScheme::ECDSA_NISTP384_SHA384,
        SignatureScheme::ECDSA_NISTP256_SHA256,
    ];
    assert(r@ =~= ecdsa_schemes());
    r
}

/// The signature schemes of the RSA suites, most preferred first.
pub open spec fn rsa_schemes() -> Seq<SignatureScheme> {
    seq![
        SignatureScheme::RSA_PSS_SHA512,
        SignatureScheme::RSA_PSS_SHA384,
        SignatureScheme::RSA_PSS_SHA256,
        SignatureScheme::RSA_PKCS1_SHA512,
        SignatureScheme::RSA_PKCS1_SHA384,
        SignatureScheme::RSA_PKCS1_SHA256,
    ]
}

/// The signature schemes of the RSA suites, most preferred first.
pub fn tls12_rsa_schemes() -> (r: &'static [SignatureScheme])
    ensures
        r@ == rsa_schemes(),
{
    let r: &'static [SignatureScheme] = &[
        SignatureScheme::RSA_PSS_SHA512,
        SignatureScheme::RSA_PSS_SHA384,
        SignatureScheme::RSA_PSS_SHA256,
        SignatureScheme::RSA_PKCS1_SHA512,
        SignatureScheme::RSA_PKCS1_SHA384,
        SignatureScheme::RSA_PKCS1_SHA256,
    ];
    assert(r@ =~= rsa_schemes());
    r
}

/// True when `s` is the TLS 1.2 suite with these parameters; all of them
/// agree on keys by ephemeral elliptic-curve Diffie-Hellman.
pub open spec fn is_tls12_suite(
    s: Tls12CipherSuite,
    suite: CipherSuite,
    bulk: BulkAlgorithm,
    hash: HashAlgorithm,
    sign: Seq<SignatureScheme>,
) -> bool {
    &&& s.common == CipherSuiteCommon { suite, bulk }
    &&& s.hmac_algorithm == hash
    &&& s.kx == KeyExchangeAlgorithm::ECDHE
    &&& s.sign@ == sign
}

/// True when `s` is the suite TLS_ECDHE_ECDSA_WITH_CHACHA20_POLY1305_SHA256.
pub open spec fn is_tls_ecdhe_ecdsa_with_chacha20_poly1305_sha256(s: Tls12CipherSuite) -> bool {
    is_tls12_suite(
        s,
        CipherSuite::TLS_ECDHE_ECDSA_WITH_CHACHA20_POLY1305_SHA256,
        BulkAlgorithm::Chacha20Poly1305,
        HashAlgorithm::Sha256,
        ecdsa_schemes(),
    )
}

/// The TLS1.2 ciphersuite TLS_ECDHE_ECDSA_WITH_CHACHA20_POLY1305_SHA256.
pub fn tls_ecdhe_ecdsa_with_chacha20_poly1305_sha256() -> (r: Tls12CipherSuite)
    ensures
        is_tls_ecdhe_ecdsa_with_chacha20_poly1305_sha256(r),
{
    Tls12CipherSuite {
        common: CipherSuiteCommon {
            suite: CipherSuite::TLS_ECDHE_ECDSA_WITH_CHACHA20_POLY1305_SHA256,
            bulk: BulkAlgorithm::Chacha20Poly1305,
        },
        hmac_algorithm: HashAlgorithm::Sha256,
        kx: KeyExchangeAlgorithm::ECDHE,
        sign: tls12_ecdsa_schemes(),
    }
}

/// True when `s` is the suite TLS_ECDHE_RSA_WITH_CHACHA20_POLY1305_SHA256.
pub open spec fn is_tls_ecdhe_rsa_with_chacha20_poly1305_sha256(s: Tls12CipherSuite) -> bool {
    is_tls12_suite(
        s,
        CipherSuite::TLS_ECDHE_RSA_WITH_CHACHA20_POLY1305_SHA256,
        BulkAlgorithm::Chacha20Poly1305,
        HashAlgorithm::Sha256,
        rsa_schemes(),
    )
}

/// The TLS1.2 ciphersuite TLS_ECDHE_RSA_WITH_CHACHA20_POLY1305_SHA256
pub fn tls_ecdhe_rsa_with_chacha20_poly1305_sha256() -> (r: Tls12CipherSuite)
    ensures
        is_tls_ecdhe_rsa_with_chacha20_poly1305_sha256(r),
{
    Tls12CipherSuite {
        common: CipherSuiteCommon {
            suite: CipherSuite::TLS_ECDHE_RSA_WITH_CHACHA20_POLY1305_SHA256,
            bulk: BulkAlgorithm::Chacha20Poly1305,
        },
        hmac_algorithm: HashAlgorithm::Sha256,
        kx: KeyExchangeAlgorithm::ECDHE,
        sign: tls12_rsa_schemes(),
    }
}

/// True when `s` is the suite TLS_ECDHE_RSA_WITH_AES_128_GCM_SHA256.
pub open spec fn is_tls_ecdhe_rsa_with_aes_128_gcm_sha256(s: Tls12CipherSuite) -> bool {
    is_tls12_suite(
        s,
        CipherSuite::TLS_ECDHE_RSA_WITH_AES_128_GCM_SHA256,
        BulkAlgorithm::Aes128Gcm,
        HashAlgorithm::Sha256,
        rsa_schemes(),
    )
}

/// The TLS1.2 ciphersuite TLS_ECDHE_RSA_WITH_AES_128_GCM_SHA256
pub fn tls_ecdhe_rsa_with_aes_128_gcm_sha256() -> (r: Tls12CipherSuite)
    ensures
        is_tls_ecdhe_rsa_with_aes_128_gcm_sha256(r),
{
    Tls12CipherSuite {
        common: CipherSuiteCommon {
            suite: CipherSuite::TLS_ECDHE_RSA_WITH_AES_128_GCM_SHA256,
            bulk: BulkAlgorithm::Aes128Gcm,
        },
        hmac_algorithm: HashAlgorithm::Sha256,
        kx: KeyExchangeAlgorithm::ECDHE,
        sign: tls12_rsa_schemes(),
    }
}

/// True when `s` is the suite TLS_ECDHE_RSA_WITH_AES_256_GCM_SHA384.
pub open spec fn is_tls_ecdhe_rsa_with_aes_256_gcm_sha384(s: Tls12CipherSuite) -> bool {
    is_tls12_suite(
        s,
        CipherSuite::TLS_ECDHE_RSA_WITH_AES_256_GCM_SHA384,
        BulkAlgorithm::Aes256Gcm,
        HashAlgorithm::Sha384,
        rsa_schemes(),
    )
}

/// The TLS1.2 ciphersuite TLS_ECDHE_RSA_WITH_AES_256_GCM_SHA384
pub fn tls_ecdhe_rsa_with_aes_256_gcm_sha384() -> (r: Tls12CipherSuite)
    ensures
        is_tls_ecdhe_rsa_with_aes_256_gcm_sha384(r),
{
    Tls12CipherSuite {
        common: CipherSuiteCommon {
            suite: CipherSuite::TLS_ECDHE_RSA_WITH_AES_256_GCM_SHA384,
            bulk: BulkAlgorithm::Aes256Gcm,
        },
        hmac_algorithm: HashAlgorithm::Sha384,
        kx: KeyExchangeAlgorithm::ECDHE,
        sign: tls12_rsa_schemes(),
    }
}

/// True when `s` is the suite TLS_ECDHE_ECDSA_WITH_AES_128_GCM_SHA256.
pub open spec fn is_tls_ecdhe_ecdsa_with_aes_128_gcm_sha256(s: Tls12CipherSuite) -> bool {
    is_tls12_suite(
        s,
        CipherSuite::TLS_ECDHE_ECDSA_WITH_AES_128_GCM_SHA256,
        BulkAlgorithm::Aes128Gcm,
        HashAlgorithm::Sha256,
        ecdsa_schemes(),
    )
}

/// The TLS1.2 ciphersuite TLS_ECDHE_ECDSA_WITH_AES_128_GCM_SHA256
pub fn tls_ecdhe_ecdsa_with_aes_128_gcm_sha256() -> (r: Tls12CipherSuite)
    ensures
        is_tls_ecdhe_ecdsa_with_aes_128_gcm_sha256(r),
{
    Tls12CipherSuite {
        common: CipherSuiteCommon {
            suite: CipherSuite::TLS_ECDHE_ECDSA_WITH_AES_128_GCM_SHA256,
            bulk: BulkAlgorithm::Aes128Gcm,
        },
        hmac_algorithm: HashAlgorithm::Sha256,
        kx: KeyExchangeAlgorithm::ECDHE,
        sign: tls12_ecdsa_schemes(),
    }
}

/// True when `s` is the suite TLS_ECDHE_ECDSA_WITH_AES_256_GCM_SHA384.
pub open spec fn is_tls_ecdhe_ecdsa_with_aes_256_gcm_sha384(s: Tls12CipherSuite) -> bool {
    is_tls12_suite(
        s,
        CipherSuite::TLS_ECDHE_ECDSA_WITH_AES_256_GCM_SHA384,
        BulkAlgorithm::Aes256Gcm,
        HashAlgorithm::Sha384,
        ecdsa_schemes(),
    )
}

/// The TLS1.2 ciphersuite TLS_ECDHE_ECDSA_WITH_AES_256_GCM_SHA384
pub fn tls_ecdhe_ecdsa_with_aes_256_gcm_sha384() -> (r: Tls12CipherSuite)
    ensures
        is_tls_ecdhe_ecdsa_with_aes_256_gcm_sha384(r),
{
    Tls12CipherSuite {
        common: CipherSuiteCommon {
            suite: CipherSuite::TLS_ECDHE_ECDSA_WITH_AES_256_GCM_SHA384,
            bulk: BulkAlgorithm::Aes256Gcm,
        },
        hmac_algorithm: HashAlgorithm::Sha384,
        kx: KeyExchangeAlgorithm::ECDHE,
        sign: tls12_ecdsa_schemes(),
    }
}

/// The TLS1.3 ciphersuite TLS_CHACHA20_POLY1305_SHA256
pub open spec fn spec_tls13_chacha20_poly1305_sha256() -> Tls13CipherSuite {
    Tls13CipherSuite {
        common: CipherSuiteCommon {
            suite: CipherSuite::TLS13_CHACHA20_POLY1305_SHA256,
            bulk: BulkAlgorithm::Chacha20Poly1305,
        },
        hkdf_algorithm: HashAlgorithm::Sha256,
    }
}

/// The TLS1.3 ciphersuite TLS_CHACHA20_POLY1305_SHA256
#[verifier::when_used_as_spec(spec_tls13_chacha20_poly1305_sha256)]
pub fn tls13_chacha20_poly1305_sha256() -> (r: Tls13CipherSuite)
    ensures
        r == spec_tls13_chacha20_poly1305_sha256(),
{
    Tls13CipherSuite {
        common: CipherSuiteCommon {
            suite: CipherSuite::TLS13_CHACHA20_POLY1305_SHA256,
            bulk: BulkAlgorithm::Chacha20Poly1305,
        },
        hkdf_algorithm: HashAlgorithm::Sha256,
    }
}

/// The TLS1.3 ciphersuite TLS_AES_256_GCM_SHA384
pub open spec fn spec_tls13_aes_256_gcm_sha384() -> Tls13CipherSuite {
    Tls13CipherSuite {
        common: CipherSuiteCommon {
            suite: CipherSuite::TLS13_AES_256_GCM_SHA384,
            bulk: BulkAlgorithm::Aes256Gcm,
        },
        hkdf_algorithm: HashAlgorithm::Sha384,
    }
}

/// The TLS1.3 ciphersuite TLS_AES_256_GCM_SHA384
#[verifier::when_used_as_spec(spec_tls13_aes_256_gcm_sha384)]
pub fn tls13_aes_256_gcm_sha384() -> (r: Tls13CipherSuite)
    ensures
        r == spec_tls13_aes_256_gcm_sha384(),
{
    Tls13CipherSuite {
        common: CipherSuiteCommon {
            suite: CipherSuite::TLS13_AES_256_GCM_SHA384,
            bulk: BulkAlgorithm::Aes256Gcm,
        },
        hkdf_algorithm: HashAlgorithm::Sha384,
    }
}

/// The TLS1.3 ciphersuite TLS_AES_128_GCM_SHA256
pub open spec fn spec_tls13_aes_128_gcm_sha256() -> Tls13CipherSuite {
    Tls13CipherSuite {
        common: CipherSuiteCommon {
            suite: CipherSuite::TLS13_AES_128_GCM_SHA256,
            bulk: BulkAlgorithm::Aes128Gcm,
        },
        hkdf_algorithm: HashAlgorithm::Sha256,
    }
}

/// The TLS1.3 ciphersuite TLS_AES_128_GCM_SHA256
#[verifier::when_used_as_spec(spec_tls13_aes_128_gcm_sha256)]
pub fn tls13_aes_128_gcm_sha256() -> (r: Tls13CipherSuite)
    ensures
        r == spec_tls13_aes_128_gcm_sha256(),
{
    Tls13CipherSuite {
        common: CipherSuiteCommon {
            suite: CipherSuite::TLS13_AES_128_GCM_SHA256,
            bulk: BulkAlgorithm::Aes128Gcm,
        },
        hkdf_algorithm: HashAlgorithm::Sha256,
    }
}

/// The TLS 1.3 suites that an application should use by default, most
/// preferred first.
pub open spec fn default_tls13_suites() -> Seq<Tls13CipherSuite> {
    seq![
        spec_tls13_aes_256_gcm_sha384(),
        spec_tls13_aes_128_gcm_sha256(),
        spec_tls13_chacha20_poly1305_sha256(),
    ]
}

/// True when `s` holds the TLS 1.2 suites that an application should use by
/// default, most preferred first: the ECDSA suites before the RSA suites,
/// and among each AES-256 before AES-128 before ChaCha20.
pub open spec fn is_default_tls12_suites(s: Seq<Tls12CipherSuite>) -> bool {
    &&& s.len() == 6
    &&& is_tls_ecdhe_ecdsa_with_aes_256_gcm_sha384(s[0])
    &&& is_tls_ecdhe_ecdsa_with_aes_128_gcm_sha256(s[1])
    &&& is_tls_ecdhe_ecdsa_with_chacha20_poly1305_sha256(s[2])
    &&& is_tls_ecdhe_rsa_with_aes_256_gcm_sha384(s[3])
    &&& is_tls_ecdhe_rsa_with_aes_128_gcm_sha256(s[4])
    &&& is_tls_ecdhe_rsa_with_chacha20_poly1305_sha256(s[5])
}

/// True when `s` holds all the cipher suites that this library supports: the
/// default TLS 1.3 suites, followed by the default TLS 1.2 suites.
pub open spec fn is_all_cipher_suites(s: Seq<SupportedCipherSuite>) -> bool {
    &&& s.len() == 9
    &&& forall|i: int| 0 <= i < 3 ==> #[trigger] s[i] == SupportedCipherSuite::Tls13(default_tls13_suites()[i])
    &&& forall|i: int| 3 <= i < 9 ==> (#[trigger] s[i]) is Tls12
    &&& is_default_tls12_suites(Seq::new(6, |i: int| s[i + 3]->Tls12_0))
}

/// The TLS 1.3 suites that an application should use by default, most
/// preferred first.
pub fn default_tls13_cipher_suites() -> (r: Vec<Tls13CipherSuite>)
    ensures
        r@ == default_tls13_suites(),
{
    let mut v: Vec<Tls13CipherSuite> = Vec::new();
    v.push(tls13_aes_256_gcm_sha384());
    v.push(tls13_aes_128_gcm_sha256());
    v.push(tls13_chacha20_poly1305_sha256());
    assert(v@ =~= default_tls13_suites());
    v
}

/// The TLS 1.2 suites that an application should use by default, most
/// preferred first.
pub fn default_tls12_cipher_suites() -> (r: Vec<Tls12CipherSuite>)
    ensures
        is_default_tls12_suites(r@),
{
    let mut v: Vec<Tls12CipherSuite> = Vec::new();
    v.push(tls_ecdhe_ecdsa_with_aes_256_gcm_sha384());
    v.push(tls_ecdhe_ecdsa_with_aes_128_gcm_sha256());
    v.push(tls_ecdhe_ecdsa_with_chacha20_poly1305_sha256());
    v.push(tls_ecdhe_rsa_with_aes_256_gcm_sha384());
    v.push(tls_ecdhe_rsa_with_aes_128_gcm_sha256());
    v.push(tls_ecdhe_rsa_with_chacha20_poly1305_sha256());
    v
}

/// A list of all the cipher suites supported by this library: the TLS 1.3
/// suites first, then the TLS 1.2 suites.
pub fn all_cipher_suites() -> (r: Vec<SupportedCipherSuite>)
    ensures
        is_all_cipher_suites(r@),
{
    let mut v: Vec<SupportedCipherSuite> = Vec::new();
    v.push(SupportedCipherSuite::Tls13(tls13_aes_256_gcm_sha384()));
    v.push(SupportedCipherSuite::Tls13(tls13_aes_128_gcm_sha256()));
    v.push(SupportedCipherSuite::Tls13(tls13_chacha20_poly1305_sha256()));
    v.push(SupportedCipherSuite::Tls12(tls_ecdhe_ecdsa_with_aes_256_gcm_sha384()));
    v.push(SupportedCipherSuite::Tls12(tls_ecdhe_ecdsa_with_aes_128_gcm_sha256()));
    v.push(SupportedCipherSuite::Tls12(tls_ecdhe_ecdsa_with_chacha20_poly1305_sha256()));
    v.push(SupportedCipherSuite::Tls12(tls_ecdhe_rsa_with_aes_256_gcm_sha384()));
    v.push(SupportedCipherSuite::Tls12(tls_ecdhe_rsa_with_aes_128_gcm_sha256()));
    v.push(SupportedCipherSuite::Tls12(tls_ecdhe_rsa_with_chacha20_poly1305_sha256()));
    v
}

/// The cipher suite configuration that an application should use by default:
/// all the suites of [`all_cipher_suites`].
pub fn default_cipher_suites() -> (r: Vec<SupportedCipherSuite>)
    ensures
        is_all_cipher_suites(r@),
{
    all_cipher_suites()
}

/// The first suite in `server_suites` with identifier `id`.
pub open spec fn first_with(server_suites: Seq<SupportedCipherSuite>, id: CipherSuite) -> Option<
    SupportedCipherSuite,
>
    decreases server_suites.len(),
{
    if server_suites.len() == 0 {
        None
    } else if server_suites[0].spec_suite() == id {
        Some(server_suites[0])
    } else {
        first_with(server_suites.skip(1), id)
    }
}

/// The choice by the client's preference: the first identifier in the
/// client's list that the server supports decides, and the choice is the
/// first of the server's suites with that identifier.
pub open spec fn preferring_client(
    client_suites: Seq<CipherSuite>,
    server_suites: Seq<SupportedCipherSuite>,
) -> Option<SupportedCipherSuite>
    decreases client_suites.len(),
{
    if client_suites.len() == 0 {
        None
    } else {
        match first_with(server_suites, client_suites[0]) {
            Some(s) => Some(s),
            None => preferring_client(client_suites.skip(1), server_suites),
        }
    }
}

/// The choice by the server's preference: the first of the server's suites
/// whose identifier the client offers.
pub open spec fn preferring_server(
    client_suites: Seq<CipherSuite>,
    server_suites: Seq<SupportedCipherSuite>,
) -> Option<SupportedCipherSuite>
    decreases server_suites.len(),
{
    if server_suites.len() == 0 {
        None
    } else if client_suites.contains(server_suites[0].spec_suite()) {
        Some(server_suites[0])
    } else {
        preferring_server(client_suites, server_suites.skip(1))
    }
}

/// The first suite in `server_suites` with identifier `id`.
fn find_suite(server_suites: &[SupportedCipherSuite], id: CipherSuite) -> (r: Option<
    SupportedCipherSuite,
>)
    ensures
        r == first_with(server_suites@, id),
{
    let mut j: usize = 0;
    assert(server_suites@.skip(0) =~= server_suites@);
    while j < server_suites.len()
        invariant
            j <= server_suites@.len(),
            first_with(server_suites@.skip(j as int), id) == first_with(server_suites@, id),
        decreases server_suites@.len() - j,
    {
        let ghost rest = server_suites@.skip(j as int);
        assert(rest[0] == server_suites@[j as int]);
        assert(rest.skip(1) =~= server_suites@.skip(j + 1));
        if server_suites[j].suite() == id {
            return Some(server_suites[j]);
        }
        j = j + 1;
    }
    None
}

/// True when `id` occurs in `client_suites`.
fn offers(client_suites: &[CipherSuite], id: CipherSuite) -> (r: bool)
    ensures
        r == client_suites@.contains(id),
{
    let mut i: usize = 0;
    while i < client_suites.len()
        invariant
            i <= client_suites@.len(),
            forall|k: int| 0 <= k < i ==> client_suites@[k] != id,
        decreases client_suites@.len() - i,
    {
        if client_suites[i] == id {
            return true;
        }
        i = i + 1;
    }
    false
}

/// Chooses a suite by the client's preference: the first identifier in the
/// client's list that the server supports decides, and the result is the
/// first of the server's suites with that identifier. `None` when the
/// server supports none of the client's identifiers.
pub fn choose_ciphersuite_preferring_client(
    client_suites: &[CipherSuite],
    server_suites: &[SupportedCipherSuite],
) -> (r: Option<SupportedCipherSuite>)
    ensures
        r == preferring_client(client_suites@, server_suites@),
{
    let mut i: usize = 0;
    assert(client_suites@.skip(0) =~= client_suites@);
    while i < client_suites.len()
        invariant
            i <= client_suites@.len(),
            preferring_client(client_suites@.skip(i as int), server_suites@) == preferring_client(
                client_suites@,
                server_suites@,
            ),
        decreases client_suites@.len() - i,
    {
        let ghost rest = client_suites@.skip(i as int);
        assert(rest[0] == client_suites@[i as int]);
        assert(rest.skip(1) =~= client_suites@.skip(i + 1));
        match find_suite(server_suites, client_suites[i]) {
            Some(selected) => {
                return Some(selected);
            },
            None => {},
        }
        i = i + 1;
    }
    None
}

/// Chooses a suite by the server's preference: the first of the server's
/// suites whose identifier the client offers. `None` when the client offers
/// none of the server's identifiers.
pub fn choose_ciphersuite_preferring_server(
    client_suites: &[CipherSuite],
    server_suites: &[SupportedCipherSuite],
) -> (r: Option<SupportedCipherSuite>)
    ensures
        r == preferring_server(client_suites@, server_suites@),
{
    let mut j: usize = 0;
    assert(server_suites@.skip(0) =~= server_suites@);
    while j < server_suites.len()
        invariant
            j <= server_suites@.len(),
            preferring_server(client_suites@, server_suites@.skip(j as int)) == preferring_server(
                client_suites@,
                server_suites@,
            ),
        decreases server_suites@.len() - j,
    {
        let ghost rest = server_suites@.skip(j as int);
        assert(rest[0] == server_suites@[j as int]);
        assert(rest.skip(1) =~= server_suites@.skip(j + 1));
        if offers(client_suites, server_suites[j].suite()) {
            return Some(server_suites[j]);
        }
        j = j + 1;
    }
    None
}

/// With two suites of different identifiers, a client that lists the
/// identifier of `x` before that of `y`, and a server that lists `y` before
/// `x`: the client's preference chooses `x`, the server's `y`.
pub proof fn lemma_preference_decides(x: SupportedCipherSuite, y: SupportedCipherSuite)
    requires
        x.spec_suite() != y.spec_suite(),
    ensures
        preferring_client(seq![x.spec_suite(), y.spec_suite()], seq![y, x]) == Some(x),
        preferring_server(seq![x.spec_suite(), y.spec_suite()], seq![y, x]) == Some(y),
{
    let client = seq![x.spec_suite(), y.spec_suite()];
    let server = seq![y, x];
    assert(server.skip(1) =~= seq![x]);
    assert(first_with(server.skip(1), x.spec_suite()) == Some(x));
    assert(first_with(server, x.spec_suite()) == Some(x));
    assert(client[1] == y.spec_suite());
    assert(client.contains(y.spec_suite()));
}

/// No suite with the identifier `id` is found among suites that all have
/// other identifiers.
pub proof fn lemma_first_with_none(server_suites: Seq<SupportedCipherSuite>, id: CipherSuite)
    requires
        forall|j: int| 0 <= j < server_suites.len() ==> (#[trigger] server_suites[j]).spec_suite() != id,
    ensures
        first_with(server_suites, id) is None,
    decreases server_suites.len(),
{
    if server_suites.len() > 0 {
        assert(server_suites[0].spec_suite() != id);
        assert forall|j: int| 0 <= j < server_suites.skip(1).len() implies (
        #[trigger] server_suites.skip(1)[j]).spec_suite() != id by {
            assert(server_suites.skip(1)[j] == server_suites[j + 1]);
        }
        lemma_first_with_none(server_suites.skip(1), id);
    }
}

/// Where the two sides have no identifier in common, neither preference
/// chooses a suite.
pub proof fn lemma_disjoint_selects_none(
    client_suites: Seq<CipherSuite>,
    server_suites: Seq<SupportedCipherSuite>,
)
    requires
        forall|i: int, j: int|
            #![trigger client_suites[i], server_suites[j]]
            0 <= i < client_suites.len() && 0 <= j < server_suites.len() ==> client_suites[i]
                != server_suites[j].spec_suite(),
    ensures
        preferring_client(client_suites, server_suites) is None,
        preferring_server(client_suites, server_suites) is None,
{
    lemma_disjoint_client(client_suites, server_suites);
    lemma_disjoint_server(client_suites, server_suites);
}

proof fn lemma_disjoint_client(
    client_suites: Seq<CipherSuite>,
    server_suites: Seq<SupportedCipherSuite>,
)
    requires
        forall|i: int, j: int|
            #![trigger client_suites[i], server_suites[j]]
            0 <= i < client_suites.len() && 0 <= j < server_suites.len() ==> client_suites[i]
                != server_suites[j].spec_suite(),
    ensures
        preferring_client(client_suites, server_suites) is None,
    decreases client_suites.len(),
{
    if client_suites.len() > 0 {
        assert forall|j: int| 0 <= j < server_suites.len() implies (
        #[trigger] server_suites[j]).spec_suite() != client_suites[0] by {
            assert(client_suites[0] != server_suites[j].spec_suite());
        }
        lemma_first_with_none(server_suites, client_suites[0]);
        let rest = client_suites.skip(1);
        assert forall|i: int, j: int|
            #![trigger rest[i], server_suites[j]]
            0 <= i < rest.len() && 0 <= j < server_suites.len() implies rest[i]
            != server_suites[j].spec_suite() by {
            assert(rest[i] == client_suites[i + 1]);
        }
        lemma_disjoint_client(client_suites.skip(1), server_suites);
    }
}

proof fn lemma_disjoint_server(
    client_suites: Seq<CipherSuite>,
    server_suites: Seq<SupportedCipherSuite>,
)
    requires
        forall|i: int, j: int|
            #![trigger client_suites[i], server_suites[j]]
            0 <= i < client_suites.len() && 0 <= j < server_suites.len() ==> client_suites[i]
                != server_suites[j].spec_suite(),
    ensures
        preferring_server(client_suites, server_suites) is None,
    decreases server_suites.len(),
{
    if server_suites.len() > 0 {
        assert(!client_suites.contains(server_suites[0].spec_suite())) by {
            if client_suites.contains(server_suites[0].spec_suite()) {
                let i = choose|i: int|
                    0 <= i < client_suites.len() && client_suites[i] == server_suites[0].spec_suite();
                assert(client_suites[i] != server_suites[0].spec_suite());
            }
        }
        let rest = server_suites.skip(1);
        assert forall|i: int, j: int|
            #![trigger client_suites[i], rest[j]]
            0 <= i < client_suites.len() && 0 <= j < rest.len() implies client_suites[i]
            != rest[j].spec_suite() by {
            assert(rest[j] == server_suites[j + 1]);
            assert(client_suites[i] != server_suites[j + 1].spec_suite());
        }
        lemma_disjoint_server(client_suites, server_suites.skip(1));
    }
}

/// Return a list of the cipher suites in `all` with the suites
/// incompatible with `SignatureAlgorithm` `sigalg` removed.
pub fn reduce_given_sigalg(all: &[SupportedCipherSuite], sigalg: SignatureAlgorithm) -> (r: Vec<
    SupportedCipherSuite,
>)
    ensures
        r@ == all@.filter(|suite: SupportedCipherSuite| suite.spec_usable_for_sigalg(sigalg)),
{
    let ghost pred = |suite: SupportedCipherSuite| suite.spec_usable_for_sigalg(sigalg);
    let mut out: Vec<SupportedCipherSuite> = Vec::new();
    let mut i: usize = 0;
    proof {
        reveal_with_fuel(Seq::<_>::filter, 2);
        assert(all@.take(0).filter(pred) =~= Seq::<SupportedCipherSuite>::empty());
    }
    while i < all.len()
        invariant
            i <= all@.len(),
            pred == (|suite: SupportedCipherSuite| suite.spec_usable_for_sigalg(sigalg)),
            out@ == all@.take(i as int).filter(pred),
        decreases all@.len() - i,
    {
        let suite = all[i];
        proof {
            reveal_with_fuel(Seq::<_>::filter, 2);
            assert(all@.take(i + 1).drop_last() =~= all@.take(i as int));
            assert(all@.take(i + 1).last() == suite);
        }
        if suite.usable_for_sigalg(sigalg) {
            out.push(suite);
        }
        i = i + 1;
    }
    assert(all@.take(i as int) =~= all@);
    out
}

/// Return a list of the cipher suites in `all` with the suites
/// incompatible with the chosen `version` removed.
pub fn reduce_given_version(all: &[SupportedCipherSuite], version: ProtocolVersion) -> (r: Vec<
    SupportedCipherSuite,
>)
    ensures
        r@ == all@.filter(|suite: SupportedCipherSuite| suite.spec_usable_for_version(version)),
{
    let ghost pred = |suite: SupportedCipherSuite| suite.spec_usable_for_version(version);
    let mut out: Vec<SupportedCipherSuite> = Vec::new();
    let mut i: usize = 0;
    proof {
        reveal_with_fuel(Seq::<_>::filter, 2);
        assert(all@.take(0).filter(pred) =~= Seq::<SupportedCipherSuite>::empty());
    }
    while i < all.len()
        invariant
            i <= all@.len(),
            pred == (|suite: SupportedCipherSuite| suite.spec_usable_for_version(version)),
            out@ == all@.take(i as int).filter(pred),
        decreases all@.len() - i,
    {
        let suite = all[i];
        proof {
            reveal_with_fuel(Seq::<_>::filter, 2);
            assert(all@.take(i + 1).drop_last() =~= all@.take(i as int));
            assert(all@.take(i + 1).last() == suite);
        }
        if suite.usable_for_version(version) {
            out.push(suite);
        }
        i = i + 1;
    }
    assert(all@.take(i as int) =~= all@);
    out
}

/// Return true if `sigscheme` is usable by any of the given suites.
pub fn compatible_sigscheme_for_suites(
    sigscheme: SignatureScheme,
    common_suites: &[SupportedCipherSuite],
) -> (r: bool)
    ensures
        r == exists|i: int|
            0 <= i < common_suites@.len() && (#[trigger] common_suites@[i]).spec_usable_for_sigalg(
                sigscheme.spec_sign(),
            ),
{
    let sigalg = sigscheme.sign();
    let mut i: usize = 0;
    while i < common_suites.len()
        invariant
            i <= common_suites@.len(),
            sigalg == sigscheme.spec_sign(),
            forall|k: int|
                0 <= k < i ==> !(#[trigger] common_suites@[k]).spec_usable_for_sigalg(sigalg),
        decreases common_suites@.len() - i,
    {
        if common_suites[i].usable_for_sigalg(sigalg) {
            return true;
        }
        i = i + 1;
    }
    false
}

} // verus!
