use crate::anchors::RootCertStore;
use vstd::prelude::*;

verus! {

/// Makes `sct::Log` known as a type whose values are carried but never
/// looked into.
#[verifier::external_type_specification]
#[verifier::external_body]
pub struct ExLog<'a>(sct::Log<'a>);

/// What a server-certificate verifier that follows the Web PKI works from:
/// the roots of trust, and the certificate transparency logs it knows.
pub struct WebPkiVerifier {
    pub roots: RootCertStore,
    pub ct_logs: &'static [&'static sct::Log<'static>],
}

impl WebPkiVerifier {
    /// Constructs a new `WebPkiVerifier`.
    ///
    /// `roots` is the set of trust anchors to trust for issuing server certs.
    ///
    /// `ct_logs` is the list of logs that are trusted for Certificate
    /// Transparency.
    pub fn new(roots: RootCertStore, ct_logs: &'static [&'static sct::Log<'static>]) -> (r: Self)
        ensures
            r.roots == roots,
            r.ct_logs == ct_logs,
    {
        Self { roots, ct_logs }
    }
}

} // verus!
