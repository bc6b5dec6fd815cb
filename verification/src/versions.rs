use crate::msgs::enums::ProtocolVersion;
use vstd::prelude::*;

verus! {

/// A TLS protocol version supported by this library.
///
/// All possible instances of this class are provided by the library in
/// [`all_versions`], as well as individually as [`tls12`] and [`tls13`].
#[derive(Clone, Copy, Debug, PartialEq, Eq, Structural)]
pub struct SupportedProtocolVersion {
    /// The TLS enumeration naming this version.
    pub version: ProtocolVersion,
}

/// TLS1.2
pub fn tls12() -> (r: SupportedProtocolVersion)
    ensures
        r.version == ProtocolVersion::TLSv1_2,
{
    SupportedProtocolVersion { version: ProtocolVersion::TLSv1_2 }
}

/// TLS1.3
pub fn tls13() -> (r: SupportedProtocolVersion)
    ensures
        r.version == ProtocolVersion::TLSv1_3,
{
    SupportedProtocolVersion { version: ProtocolVersion::TLSv1_3 }
}

/// A list of all the protocol versions supported by this library, the
/// newest first.
pub fn all_versions() -> (r: Vec<SupportedProtocolVersion>)
    ensures
        r@.len() == 2,
        r@[0].version == ProtocolVersion::TLSv1_3,
        r@[1].version == ProtocolVersion::TLSv1_2,
{
    let mut v: Vec<SupportedProtocolVersion> = Vec::new();
    v.push(tls13());
    v.push(tls12());
    v
}

/// The version configuration that an application should use by default:
/// all the versions of [`all_versions`].
pub fn default_versions() -> (r: Vec<SupportedProtocolVersion>)
    ensures
        r@.len() == 2,
        r@[0].version == ProtocolVersion::TLSv1_3,
        r@[1].version == ProtocolVersion::TLSv1_2,
{
    all_versions()
}

} // verus!
