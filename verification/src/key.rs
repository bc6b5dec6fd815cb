use vstd::prelude::*;

verus! {

/// This type contains a private key by value.
///
/// The private key must be DER-encoded ASN.1 in either
/// PKCS#8 or PKCS#1 format.
#[derive(Debug, Eq, PartialEq)]
pub struct PrivateKey(pub Vec<u8>);

impl Clone for PrivateKey {
    fn clone(&self) -> (r: Self)
        ensures
            r.0@ == self.0@,
    {
        PrivateKey(self.0.clone())
    }
}

/// This type contains a single certificate by value.
///
/// The certificate must be DER-encoded X.509.
#[derive(Debug, Eq, PartialEq)]
pub struct Certificate(pub Vec<u8>);

impl Clone for Certificate {
    fn clone(&self) -> (r: Self)
        ensures
            r.0@ == self.0@,
    {
        Certificate(self.0.clone())
    }
}

} // verus!
