use crate::kx::SupportedKxGroup;
use crate::suites::{Tls12CipherSuite, Tls13CipherSuite};
use vstd::prelude::*;

verus! {

/// The mathematical value of a [`ServerConfigBuilder`].
pub ghost struct ServerConfigBuilderView {
    pub tls13_cipher_suites: Seq<Tls13CipherSuite>,
    pub tls12_cipher_suites: Seq<Tls12CipherSuite>,
    pub kx_groups: Seq<SupportedKxGroup>,
}

/// Building a server configuration: the cipher suites and key exchange
/// groups are chosen, and there is at least one of each.
pub struct ServerConfigBuilder {
    tls13_cipher_suites: Vec<Tls13CipherSuite>,
    tls12_cipher_suites: Vec<Tls12CipherSuite>,
    kx_groups: Vec<SupportedKxGroup>,
}

impl ServerConfigBuilder {
    /// A server builder that continues from validated choices.
    pub(crate) fn new(
        tls13_cipher_suites: Vec<Tls13CipherSuite>,
        tls12_cipher_suites: Vec<Tls12CipherSuite>,
        kx_groups: Vec<SupportedKxGroup>,
    ) -> (r: Self)
        ensures
            r@ == (ServerConfigBuilderView {
                tls13_cipher_suites: tls13_cipher_suites@,
                tls12_cipher_suites: tls12_cipher_suites@,
                kx_groups: kx_groups@,
            }),
    {
        ServerConfigBuilder { tls13_cipher_suites, tls12_cipher_suites, kx_groups }
    }
}

impl View for ServerConfigBuilder {
    type V = ServerConfigBuilderView;

    closed spec fn view(&self) -> ServerConfigBuilderView {
        ServerConfigBuilderView {
            tls13_cipher_suites: self.tls13_cipher_suites@,
            tls12_cipher_suites: self.tls12_cipher_suites@,
            kx_groups: self.kx_groups@,
        }
    }
}

} // verus!
