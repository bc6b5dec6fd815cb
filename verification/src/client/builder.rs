use crate::anchors::RootCertStore;
use crate::client::{
    AlwaysResolvesClientCert, ClientConfig, FailResolveClientCert, NoKeyLog,
    DEFAULT_SESSION_CACHE_SIZE,
};
use crate::error::{Error, ErrorView};
use crate::key::{Certificate, PrivateKey};
use crate::kx::SupportedKxGroup;
use crate::sign::{
    ed25519_pkcs8_accepted, rsa_der_accepted, rsa_pkcs8_accepted, supported_algorithm,
};
use crate::suites::{Tls12CipherSuite, Tls13CipherSuite};
use crate::verify::WebPkiVerifier;
use vstd::prelude::*;

verus! {

/// The mathematical value of what a client builder has chosen so far.
pub ghost struct ChoicesView {
    pub tls13_cipher_suites: Seq<Tls13CipherSuite>,
    pub tls12_cipher_suites: Seq<Tls12CipherSuite>,
    pub kx_groups: Seq<SupportedKxGroup>,
}

impl ChoicesView {
    /// There is a cipher suite and a key exchange group.
    pub open spec fn usable(self) -> bool {
        self.tls13_cipher_suites.len() + self.tls12_cipher_suites.len() > 0 && self.kx_groups.len()
            > 0
    }
}

/// Building a [`ClientConfig`] in a linker-friendly way.
///
/// Linker-friendly: meaning unused cipher suites, protocol
/// versions, key exchange mechanisms, etc. can be discarded
/// by the linker as they'll be unreferenced.
///
/// # Resulting [`ClientConfig`] defaults
/// * [`ClientConfig::max_fragment_size`]: the default is `None`: TLS packets are not fragmented to a specific size.
/// * [`ClientConfig::session_cache_size`]: the default stores 256 sessions in memory.
/// * [`ClientConfig::alpn_protocols`]: the default is empty -- no ALPN protocol is negotiated.
/// * [`ClientConfig::key_log`]: key material is not logged.
pub struct ClientConfigBuilder {
    tls13_cipher_suites: Vec<Tls13CipherSuite>,
    tls12_cipher_suites: Vec<Tls12CipherSuite>,
    kx_groups: Vec<SupportedKxGroup>,
}

impl View for ClientConfigBuilder {
    type V = ChoicesView;

    closed spec fn view(&self) -> ChoicesView {
        ChoicesView {
            tls13_cipher_suites: self.tls13_cipher_suites@,
            tls12_cipher_suites: self.tls12_cipher_suites@,
            kx_groups: self.kx_groups@,
        }
    }
}

impl ClientConfigBuilder {
    /// A client builder that continues from validated choices.
    pub(crate) fn new(
        tls13_cipher_suites: Vec<Tls13CipherSuite>,
        tls12_cipher_suites: Vec<Tls12CipherSuite>,
        kx_groups: Vec<SupportedKxGroup>,
    ) -> (r: Self)
        ensures
            r@ == (ChoicesView {
                tls13_cipher_suites: tls13_cipher_suites@,
                tls12_cipher_suites: tls12_cipher_suites@,
                kx_groups: kx_groups@,
            }),
    {
        ClientConfigBuilder { tls13_cipher_suites, tls12_cipher_suites, kx_groups }
    }

    /// Choose how to verify server certificates: by the Web PKI, from the
    /// given roots and certificate transparency logs.
    pub fn with_root_certificates(
        self,
        root_store: RootCertStore,
        ct_logs: &'static [&'static sct::Log<'static>],
    ) -> (r: ClientConfigBuilderWithCertVerifier<WebPkiVerifier>)
        ensures
            r@ == self@,
            r.spec_verifier().roots == root_store,
            r.spec_verifier().ct_logs == ct_logs,
    {
        let verifier = WebPkiVerifier::new(root_store, ct_logs);

        ClientConfigBuilderWithCertVerifier {
            tls13_cipher_suites: self.tls13_cipher_suites,
            tls12_cipher_suites: self.tls12_cipher_suites,
            kx_groups: self.kx_groups,
            verifier,
        }
    }

    /// Set a custom certificate verifier.
    pub fn with_custom_certificate_verifier<V>(self, verifier: V) -> (r:
        ClientConfigBuilderWithCertVerifier<V>)
        ensures
            r@ == self@,
            r.spec_verifier() == verifier,
    {
        ClientConfigBuilderWithCertVerifier {
            tls13_cipher_suites: self.tls13_cipher_suites,
            tls12_cipher_suites: self.tls12_cipher_suites,
            kx_groups: self.kx_groups,
            verifier,
        }
    }
}

/// A [`ClientConfigBuilder`] where we know the cipher suites, key exchange
/// groups, enabled versions, and server certificate auth policy.
pub struct ClientConfigBuilderWithCertVerifier<V> {
    tls13_cipher_suites: Vec<Tls13CipherSuite>,
    tls12_cipher_suites: Vec<Tls12CipherSuite>,
    kx_groups: Vec<SupportedKxGroup>,
    verifier: V,
}

impl<V> View for ClientConfigBuilderWithCertVerifier<V> {
    type V = ChoicesView;

    closed spec fn view(&self) -> ChoicesView {
        ChoicesView {
            tls13_cipher_suites: self.tls13_cipher_suites@,
            tls12_cipher_suites: self.tls12_cipher_suites@,
            kx_groups: self.kx_groups@,
        }
    }
}

/// True when `config` holds the choices `c`, the verifier `verifier`, and
/// the settings that every new client configuration starts with.
pub open spec fn fresh_config<V, R>(config: ClientConfig<V, R>, c: ChoicesView, verifier: V) -> bool {
    &&& config.tls13_cipher_suites@ == c.tls13_cipher_suites
    &&& config.tls12_cipher_suites@ == c.tls12_cipher_suites
    &&& config.kx_groups@ == c.kx_groups
    &&& config.alpn_protocols@.len() == 0
    &&& config.session_cache_size == DEFAULT_SESSION_CACHE_SIZE
    &&& config.max_fragment_size is None
    &&& config.enable_tickets
    &&& config.enable_sni
    &&& config.verifier == verifier
    &&& !config.enable_early_data
}

impl<V> ClientConfigBuilderWithCertVerifier<V> {
    /// How server certificates are verified.
    pub closed spec fn spec_verifier(&self) -> V {
        self.verifier
    }

    /// Sets a single certificate chain and matching private key for use
    /// in client authentication.
    ///
    /// `cert_chain` is a vector of DER-encoded certificates.
    /// `key_der` is a DER-encoded RSA, ECDSA, or Ed25519 private key.
    ///
    /// This function fails if no parser takes `key_der`.
    pub fn with_single_cert(self, cert_chain: Vec<Certificate>, key_der: PrivateKey) -> (r: Result<
        ClientConfig<V, AlwaysResolvesClientCert>,
        Error,
    >)
        ensures
            match r {
                Ok(config) => supported_algorithm(
                    key_der.0@,
                    Some(config.client_auth_cert_resolver.algorithm),
                ) && config.client_auth_cert_resolver.chain == cert_chain
                    && config.client_auth_cert_resolver.key.0@ == key_der.0@ && fresh_config(
                    config,
                    self@,
                    self.spec_verifier(),
                ),
                Err(e) => supported_algorithm(key_der.0@, None) && e@ == ErrorView::General(
                    "invalid private key"@,
                ),
            },
            rsa_der_accepted(key_der.0@) || rsa_pkcs8_accepted(key_der.0@) ==> r is Ok,
            r is Err ==> !ed25519_pkcs8_accepted(key_der.0@),
    {
        match AlwaysResolvesClientCert::new(cert_chain, &key_der) {
            Ok(resolver) => Ok(self.with_client_cert_resolver(resolver)),
            Err(e) => Err(e),
        }
    }

    /// Do not support client auth.
    pub fn with_no_client_auth(self) -> (r: ClientConfig<V, FailResolveClientCert>)
        ensures
            fresh_config(r, self@, self.spec_verifier()),
    {
        self.with_client_cert_resolver(FailResolveClientCert { })
    }

    /// Sets a custom client-certificate resolver.
    pub fn with_client_cert_resolver<R>(self, client_auth_cert_resolver: R) -> (r: ClientConfig<
        V,
        R,
    >)
        ensures
            fresh_config(r, self@, self.spec_verifier()),
            r.client_auth_cert_resolver == client_auth_cert_resolver,
    {
        ClientConfig {
            tls13_cipher_suites: self.tls13_cipher_suites,
            tls12_cipher_suites: self.tls12_cipher_suites,
            kx_groups: self.kx_groups,
            alpn_protocols: Vec::new(),
            session_cache_size: DEFAULT_SESSION_CACHE_SIZE,
            max_fragment_size: None,
            client_auth_cert_resolver,
            enable_tickets: true,
            enable_sni: true,
            verifier: self.verifier,
            key_log: NoKeyLog { },
            enable_early_data: false,
        }
    }
}

} // verus!
