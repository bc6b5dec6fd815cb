use crate::msgs::enums::NamedGroup;
use vstd::prelude::*;

verus! {

/// A key-exchange group supported by this library.
///
/// All possible instances of this class are provided by the library in
/// [`all_kx_groups`].
#[derive(Clone, Copy, Debug, PartialEq, Eq, Structural)]
pub struct SupportedKxGroup {
    /// The IANA "TLS Supported Groups" name of the group
    pub name: NamedGroup,
}

/// Ephemeral ECDH on curve25519 (see RFC7748)
pub fn x25519() -> (r: SupportedKxGroup)
    ensures
        r.name == NamedGroup::X25519,
{
    SupportedKxGroup { name: NamedGroup::X25519 }
}

/// Ephemeral ECDH on secp256r1 (aka NIST-P256)
pub fn secp256r1() -> (r: SupportedKxGroup)
    ensures
        r.name == NamedGroup::secp256r1,
{
    SupportedKxGroup { name: NamedGroup::secp256r1 }
}

/// Ephemeral ECDH on secp384r1 (aka NIST-P384)
pub fn secp384r1() -> (r: SupportedKxGroup)
    ensures
        r.name == NamedGroup::secp384r1,
{
    SupportedKxGroup { name: NamedGroup::secp384r1 }
}

/// All the key exchange groups supported by this library, most preferred
/// first.
pub open spec fn all_groups() -> Seq<SupportedKxGroup> {
    seq![
        SupportedKxGroup { name: NamedGroup::X25519 },
        SupportedKxGroup { name: NamedGroup::secp256r1 },
        SupportedKxGroup { name: NamedGroup::secp384r1 },
    ]
}

/// A list of all the key exchange groups supported by this library, most
/// preferred first.
pub fn all_kx_groups() -> (r: Vec<SupportedKxGroup>)
    ensures
        r@ == all_groups(),
{
    let mut v: Vec<SupportedKxGroup> = Vec::new();
    v.push(x25519());
    v.push(secp256r1());
    v.push(secp384r1());
    assert(v@ =~= all_groups());
    v
}

} // verus!
