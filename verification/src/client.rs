use crate::error::{Error, ErrorView};
use crate::key::{Certificate, PrivateKey};
use crate::kx::SupportedKxGroup;
use crate::msgs::enums::SignatureAlgorithm;
use crate::sign::{
    any_supported_type, ed25519_pkcs8_accepted, rsa_der_accepted, rsa_pkcs8_accepted,
    supported_algorithm,
};
use crate::suites::{Tls12CipherSuite, Tls13CipherSuite};
use vstd::prelude::*;

pub mod builder;

verus! {

/// The number of sessions that a client remembers unless told otherwise.
pub const DEFAULT_SESSION_CACHE_SIZE: usize = 256;

/// A key log that logs nothing.
#[derive(Clone, Copy, Debug, PartialEq, Eq, Structural)]
pub struct NoKeyLog;

/// A client-certificate resolver that never offers a certificate.
#[derive(Clone, Copy, Debug, PartialEq, Eq, Structural)]
pub struct FailResolveClientCert;

/// A client-certificate resolver that always offers the same certificate
/// chain, with a private key that signs with `algorithm`.
#[derive(Debug)]
pub struct AlwaysResolvesClientCert {
    pub chain: Vec<Certificate>,
    pub key: PrivateKey,
    pub algorithm: SignatureAlgorithm,
}

impl AlwaysResolvesClientCert {
    /// A resolver for the given chain and key. Fails where no parser takes
    /// the key. An RSA key is always taken; so is an Ed25519 key, unless an
    /// ECDSA parser took it first.
    pub fn new(chain: Vec<Certificate>, priv_key: &PrivateKey) -> (r: Result<Self, Error>)
        ensures
            match r {
                Ok(a) => supported_algorithm(priv_key.0@, Some(a.algorithm)) && a.chain == chain
                    && a.key.0@ == priv_key.0@,
                Err(e) => supported_algorithm(priv_key.0@, None) && e@ == ErrorView::General(
                    "invalid private key"@,
                ),
            },
            rsa_der_accepted(priv_key.0@) || rsa_pkcs8_accepted(priv_key.0@) ==> r is Ok,
            r is Err ==> !ed25519_pkcs8_accepted(priv_key.0@),
    {
        match any_supported_type(priv_key.0.as_slice()) {
            Some(algorithm) => Ok(Self { chain, key: priv_key.clone(), algorithm }),
            None => Err(Error::general("invalid private key")),
        }
    }
}

/// Common configuration for (typically) all connections made by
/// a program: the validated configuration that a client connection is
/// made from. `V` verifies the server's certificate, `R` resolves the
/// client's own.
pub struct ClientConfig<V, R> {
    /// List of TLS 1.3 ciphersuites, in preference order.
    pub tls13_cipher_suites: Vec<Tls13CipherSuite>,
    /// List of TLS 1.2 ciphersuites, in preference order.
    pub tls12_cipher_suites: Vec<Tls12CipherSuite>,
    /// List of supported key exchange algorithms, in preference order.
    pub kx_groups: Vec<SupportedKxGroup>,
    /// Which ALPN protocols we include in our client hello.
    /// If empty, no ALPN extension is sent.
    pub alpn_protocols: Vec<Vec<u8>>,
    /// How many sessions the session storage remembers.
    pub session_cache_size: usize,
    /// The maximum size of TLS message we'll emit.  If None, we don't limit TLS
    /// message lengths except to the 2**16 limit specified in the standard.
    pub max_fragment_size: Option<usize>,
    /// How to decide what client auth certificate/keys to use.
    pub client_auth_cert_resolver: R,
    /// Whether to support RFC5077 tickets.
    pub enable_tickets: bool,
    /// Whether to send the Server Name Indication (SNI) extension
    /// during the client handshake.
    pub enable_sni: bool,
    /// How to verify the server certificate chain.
    pub verifier: V,
    /// How to output key material for debugging.
    pub key_log: NoKeyLog,
    /// Whether to send data on the first flight ("early data") in
    /// TLS 1.3 handshakes.
    pub enable_early_data: bool,
}

impl<V, R> ClientConfig<V, R> {
    /// What every configuration that the builder yields has: a cipher suite
    /// and a key exchange group.
    pub open spec fn usable(&self) -> bool {
        &&& self.tls13_cipher_suites@.len() + self.tls12_cipher_suites@.len() > 0
        &&& self.kx_groups@.len() > 0
    }
}

} // verus!
