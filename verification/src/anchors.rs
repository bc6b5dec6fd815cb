use vstd::prelude::*;

verus! {

/// A trust anchor, commonly known as a "Root Certificate."
#[derive(Debug, Eq, PartialEq)]
pub struct OwnedTrustAnchor {
    pub subject: Vec<u8>,
    pub spki: Vec<u8>,
    pub name_constraints: Option<Vec<u8>>,
}

/// A container for root certificates able to provide a root-of-trust
/// for connection authentication.
#[derive(Debug, Eq, PartialEq)]
pub struct RootCertStore {
    /// The list of roots.
    pub roots: Vec<OwnedTrustAnchor>,
}

impl RootCertStore {
    /// Make a new, empty `RootCertStore`.
    pub fn empty() -> (r: RootCertStore)
        ensures
            r.roots@.len() == 0,
    {
        RootCertStore { roots: Vec::new() }
    }

    /// Return true if there are no certificates.
    pub fn is_empty(&self) -> (r: bool)
        ensures
            r == (self.roots@.len() == 0),
    {
        self.len() == 0
    }

    /// Say how many certificates are in the container.
    pub fn len(&self) -> (r: usize)
        ensures
            r == self.roots@.len(),
    {
        self.roots.len()
    }
}

} // verus!
