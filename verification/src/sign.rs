use crate::msgs::enums::SignatureAlgorithm;
use vstd::prelude::*;

verus! {

/// True when the bytes are an RSA private key in the form of RFC 8017.
pub uninterp spec fn rsa_der_accepted(der: Seq<u8>) -> bool;

/// True when the bytes are an RSA private key in PKCS#8 form.
pub uninterp spec fn rsa_pkcs8_accepted(der: Seq<u8>) -> bool;

/// True when the bytes are an Ed25519 private key in PKCS#8 form, with or
/// without its public key.
pub uninterp spec fn ed25519_pkcs8_accepted(der: Seq<u8>) -> bool;

/// Calls `ring::signature::RsaKeyPair::from_der` and says whether it
/// accepted the key. Trusted: that the answer depends on the bytes alone.
#[verifier::external_body]
fn rsa_from_der(der: &[u8]) -> (r: bool)
    ensures
        r == rsa_der_accepted(der@),
{
    ring::signature::RsaKeyPair::from_der(der).is_ok()
}

/// Calls `ring::signature::RsaKeyPair::from_pkcs8` and says whether it
/// accepted the key. Trusted: that the answer depends on the bytes alone.
#[verifier::external_body]
fn rsa_from_pkcs8(der: &[u8]) -> (r: bool)
    ensures
        r == rsa_pkcs8_accepted(der@),
{
    ring::signature::RsaKeyPair::from_pkcs8(der).is_ok()
}

/// Calls `ring::signature::EcdsaKeyPair::from_pkcs8` for P-256 with SHA-256
/// and says whether it accepted the key. Nothing is promised of the answer:
/// making the key pair draws on the system's random source, so the same
/// bytes need not be answered the same way twice.
#[verifier::external_body]
fn p256_from_pkcs8(der: &[u8]) -> (r: bool) {
    let alg = &ring::signature::ECDSA_P256_SHA256_ASN1_SIGNING;
    ring::signature::EcdsaKeyPair::from_pkcs8(alg, der).is_ok()
}

/// Calls `ring::signature::EcdsaKeyPair::from_pkcs8` for P-384 with SHA-384
/// and says whether it accepted the key. Nothing is promised of the answer:
/// making the key pair draws on the system's random source, so the same
/// bytes need not be answered the same way twice.
#[verifier::external_body]
fn p384_from_pkcs8(der: &[u8]) -> (r: bool) {
    let alg = &ring::signature::ECDSA_P384_SHA384_ASN1_SIGNING;
    ring::signature::EcdsaKeyPair::from_pkcs8(alg, der).is_ok()
}

/// Calls `ring::signature::Ed25519KeyPair::from_pkcs8_maybe_unchecked` and
/// says whether it accepted the key. Trusted: that the answer depends on
/// the bytes alone.
#[verifier::external_body]
fn ed25519_from_pkcs8(der: &[u8]) -> (r: bool)
    ensures
        r == ed25519_pkcs8_accepted(der@),
{
    ring::signature::Ed25519KeyPair::from_pkcs8_maybe_unchecked(der).is_ok()
}

/// The signature algorithm that a private key is good for: RSA where the
/// key is an RSA key in either form, else ECDSA where it is a P-256 or a
/// P-384 key, else Ed25519 where it is such a key, else none.
pub open spec fn key_algorithm(
    rsa_der: bool,
    rsa_pkcs8: bool,
    p256: bool,
    p384: bool,
    ed25519: bool,
) -> Option<SignatureAlgorithm> {
    if rsa_der || rsa_pkcs8 {
        Some(SignatureAlgorithm::RSA)
    } else if p256 || p384 {
        Some(SignatureAlgorithm::ECDSA)
    } else if ed25519 {
        Some(SignatureAlgorithm::ED25519)
    } else {
        None
    }
}

/// True when `r` can be what is made of the private key `der`: what the
/// RSA and Ed25519 parsers say of the bytes is fixed, what the two ECDSA
/// parsers say is not. So an RSA key always gives RSA; a key that is no
/// RSA key gives ECDSA where an ECDSA parser took it, and else Ed25519
/// exactly when it is such a key.
pub open spec fn supported_algorithm(der: Seq<u8>, r: Option<SignatureAlgorithm>) -> bool {
    exists|p256: bool, p384: bool|
        r == #[trigger] key_algorithm(
            rsa_der_accepted(der),
            rsa_pkcs8_accepted(der),
            p256,
            p384,
            ed25519_pkcs8_accepted(der),
        )
}

/// Decides the signature algorithm from what each parser said of the key.
pub fn algorithm_of(rsa_der: bool, rsa_pkcs8: bool, p256: bool, p384: bool, ed25519: bool) -> (r:
    Option<SignatureAlgorithm>)
    ensures
        r == key_algorithm(rsa_der, rsa_pkcs8, p256, p384, ed25519),
{
    if rsa_der || rsa_pkcs8 {
        Some(SignatureAlgorithm::RSA)
    } else if p256 || p384 {
        Some(SignatureAlgorithm::ECDSA)
    } else if ed25519 {
        Some(SignatureAlgorithm::ED25519)
    } else {
        None
    }
}

/// Parse `der` as any supported key encoding/type, and say which signature
/// algorithm the key is good for. The parsers are tried in turn, and the
/// first that takes the key decides: an RSA key never reaches the ECDSA
/// parsers, nor an ECDSA key the Ed25519 parser.
pub fn any_supported_type(der: &[u8]) -> (r: Option<SignatureAlgorithm>)
    ensures
        supported_algorithm(der@, r),
        rsa_der_accepted(der@) || rsa_pkcs8_accepted(der@) ==> r == Some(SignatureAlgorithm::RSA),
        r == Some(SignatureAlgorithm::RSA) ==> rsa_der_accepted(der@) || rsa_pkcs8_accepted(der@),
        r == Some(SignatureAlgorithm::ED25519) ==> ed25519_pkcs8_accepted(der@),
        r is None ==> !ed25519_pkcs8_accepted(der@),
{
    let rsa_der = rsa_from_der(der);
    let rsa_pkcs8 = !rsa_der && rsa_from_pkcs8(der);
    let rsa = rsa_der || rsa_pkcs8;
    let p256 = !rsa && p256_from_pkcs8(der);
    let p384 = !rsa && !p256 && p384_from_pkcs8(der);
    let ed25519 = !rsa && !p256 && !p384 && ed25519_from_pkcs8(der);
    let r = algorithm_of(rsa_der, rsa_pkcs8, p256, p384, ed25519);
    assert(r == key_algorithm(
        rsa_der_accepted(der@),
        rsa_pkcs8_accepted(der@),
        p256,
        p384,
        ed25519_pkcs8_accepted(der@),
    ));
    r
}

} // verus!
