use rustls::crypto::HashAlgorithm;
use rustls::msgs::enums::{CipherSuite, ProtocolVersion, SignatureAlgorithm, SignatureScheme};
use rustls::suites::{
    all_cipher_suites, choose_ciphersuite_preferring_client, choose_ciphersuite_preferring_server,
    compatible_sigscheme_for_suites, default_cipher_suites, reduce_given_sigalg,
    reduce_given_version, tls13_aes_128_gcm_sha256, tls13_aes_256_gcm_sha384,
    tls13_chacha20_poly1305_sha256, tls_ecdhe_ecdsa_with_aes_128_gcm_sha256,
    tls_ecdhe_ecdsa_with_aes_256_gcm_sha384, tls_ecdhe_ecdsa_with_chacha20_poly1305_sha256,
    tls_ecdhe_rsa_with_aes_128_gcm_sha256, tls_ecdhe_rsa_with_aes_256_gcm_sha384,
    tls_ecdhe_rsa_with_chacha20_poly1305_sha256, BulkAlgorithm, SupportedCipherSuite,
    Tls12CipherSuite, Tls13CipherSuite,
};

#[test]
fn test_client_pref() {
    let client = vec![
        CipherSuite::TLS_ECDHE_RSA_WITH_AES_128_GCM_SHA256,
        CipherSuite::TLS_ECDHE_RSA_WITH_AES_256_GCM_SHA384,
    ];
    let server = vec![
        SupportedCipherSuite::Tls12(tls_ecdhe_rsa_with_aes_256_gcm_sha384()),
        SupportedCipherSuite::Tls12(tls_ecdhe_rsa_with_aes_128_gcm_sha256()),
    ];
    let chosen = choose_ciphersuite_preferring_client(&client, &server);
    assert!(chosen.is_some());
    assert_eq!(
        chosen.unwrap(),
        SupportedCipherSuite::Tls12(tls_ecdhe_rsa_with_aes_128_gcm_sha256())
    );
}

#[test]
fn test_server_pref() {
    let client = vec![
        CipherSuite::TLS_ECDHE_RSA_WITH_AES_128_GCM_SHA256,
        CipherSuite::TLS_ECDHE_RSA_WITH_AES_256_GCM_SHA384,
    ];
    let server = vec![
        SupportedCipherSuite::Tls12(tls_ecdhe_rsa_with_aes_256_gcm_sha384()),
        SupportedCipherSuite::Tls12(tls_ecdhe_rsa_with_aes_128_gcm_sha256()),
    ];
    let chosen = choose_ciphersuite_preferring_server(&client, &server);
    assert!(chosen.is_some());
    assert_eq!(
        chosen.unwrap(),
        SupportedCipherSuite::Tls12(tls_ecdhe_rsa_with_aes_256_gcm_sha384())
    );
}

#[test]
fn test_pref_fails() {
    assert!(choose_ciphersuite_preferring_client(
        &[CipherSuite::TLS_NULL_WITH_NULL_NULL],
        &all_cipher_suites()
    )
    .is_none());
    assert!(choose_ciphersuite_preferring_server(
        &[CipherSuite::TLS_NULL_WITH_NULL_NULL],
        &all_cipher_suites()
    )
    .is_none());
}

#[test]
fn test_scs_is_debug() {
    println!("{:?}", all_cipher_suites());
}

fn ok_tls13(suite: Tls13CipherSuite) {
    let scs = SupportedCipherSuite::from(suite);
    assert!(!scs.usable_for_version(ProtocolVersion::TLSv1_0));
    assert!(!scs.usable_for_version(ProtocolVersion::TLSv1_2));
    assert!(scs.usable_for_version(ProtocolVersion::TLSv1_3));
}

fn ok_tls12(suite: Tls12CipherSuite) {
    let scs = SupportedCipherSuite::from(suite);
    assert!(!scs.usable_for_version(ProtocolVersion::TLSv1_0));
    assert!(scs.usable_for_version(ProtocolVersion::TLSv1_2));
    assert!(!scs.usable_for_version(ProtocolVersion::TLSv1_3));
}

#[test]
fn test_usable_for_version() {
    ok_tls13(tls13_chacha20_poly1305_sha256());
    ok_tls13(tls13_aes_256_gcm_sha384());
    ok_tls13(tls13_aes_128_gcm_sha256());

    ok_tls12(tls_ecdhe_ecdsa_with_chacha20_poly1305_sha256());
    ok_tls12(tls_ecdhe_rsa_with_chacha20_poly1305_sha256());
    ok_tls12(tls_ecdhe_ecdsa_with_aes_256_gcm_sha384());
    ok_tls12(tls_ecdhe_ecdsa_with_aes_128_gcm_sha256());
    ok_tls12(tls_ecdhe_rsa_with_aes_256_gcm_sha384());
}

#[test]
fn test_can_resume_to() {
    assert!(tls13_aes_128_gcm_sha256()
        .can_resume_from(tls13_chacha20_poly1305_sha256().into())
        .is_some());
    assert!(tls13_aes_256_gcm_sha384()
        .can_resume_from(tls13_chacha20_poly1305_sha256().into())
        .is_none());
}

#[test]
fn resuming_from_a_tls12_suite_is_refused() {
    assert!(tls13_aes_128_gcm_sha256()
        .can_resume_from(tls_ecdhe_rsa_with_aes_128_gcm_sha256().into())
        .is_none());
    assert_eq!(
        tls13_aes_256_gcm_sha384().can_resume_from(tls13_aes_256_gcm_sha384().into()),
        Some(tls13_aes_256_gcm_sha384())
    );
}

#[test]
fn client_preference_takes_the_first_server_entry_of_the_chosen_identifier() {
    let client = vec![
        CipherSuite::TLS_NULL_WITH_NULL_NULL,
        CipherSuite::TLS13_AES_128_GCM_SHA256,
        CipherSuite::TLS13_AES_256_GCM_SHA384,
    ];
    let chosen = choose_ciphersuite_preferring_client(&client, &all_cipher_suites()).unwrap();
    assert_eq!(chosen.suite(), CipherSuite::TLS13_AES_128_GCM_SHA256);
    let chosen = choose_ciphersuite_preferring_server(&client, &all_cipher_suites()).unwrap();
    assert_eq!(chosen.suite(), CipherSuite::TLS13_AES_256_GCM_SHA384);
    assert!(choose_ciphersuite_preferring_client(&[], &all_cipher_suites()).is_none());
    assert!(choose_ciphersuite_preferring_server(&client, &[]).is_none());
}

#[test]
fn every_tls13_suite_is_usable_for_every_signature_algorithm() {
    for alg in [
        SignatureAlgorithm::RSA,
        SignatureAlgorithm::ECDSA,
        SignatureAlgorithm::ED25519,
        SignatureAlgorithm::Anonymous,
        SignatureAlgorithm::Unknown(0x55),
    ] {
        assert!(SupportedCipherSuite::Tls13(tls13_aes_128_gcm_sha256()).usable_for_sigalg(alg));
        assert!(SupportedCipherSuite::Tls13(tls13_aes_256_gcm_sha384()).usable_for_sigalg(alg));
        assert!(SupportedCipherSuite::Tls13(tls13_chacha20_poly1305_sha256()).usable_for_sigalg(alg));
    }
}

#[test]
fn a_tls12_suite_is_usable_for_the_algorithms_of_its_schemes() {
    let rsa = SupportedCipherSuite::Tls12(tls_ecdhe_rsa_with_aes_128_gcm_sha256());
    assert!(rsa.usable_for_sigalg(SignatureAlgorithm::RSA));
    assert!(!rsa.usable_for_sigalg(SignatureAlgorithm::ECDSA));
    assert!(!rsa.usable_for_sigalg(SignatureAlgorithm::ED25519));
    let ecdsa = SupportedCipherSuite::Tls12(tls_ecdhe_ecdsa_with_aes_256_gcm_sha384());
    assert!(ecdsa.usable_for_sigalg(SignatureAlgorithm::ECDSA));
    assert!(!ecdsa.usable_for_sigalg(SignatureAlgorithm::RSA));
    // ED25519 is among the ECDSA suites' schemes, and signs with no named algorithm.
    assert!(ecdsa.usable_for_sigalg(SignatureAlgorithm::Unknown(0)));
    assert!(!ecdsa.usable_for_sigalg(SignatureAlgorithm::ED25519));
}

#[test]
fn signature_schemes_name_their_algorithm() {
    assert_eq!(SignatureScheme::RSA_PSS_SHA256.sign(), SignatureAlgorithm::RSA);
    assert_eq!(SignatureScheme::RSA_PKCS1_SHA1.sign(), SignatureAlgorithm::RSA);
    assert_eq!(SignatureScheme::ECDSA_NISTP384_SHA384.sign(), SignatureAlgorithm::ECDSA);
    assert_eq!(SignatureScheme::ED25519.sign(), SignatureAlgorithm::Unknown(0));
    assert_eq!(SignatureScheme::ECDSA_SHA1_Legacy.sign(), SignatureAlgorithm::Unknown(0));
    assert_eq!(SignatureScheme::Unknown(0x1234).sign(), SignatureAlgorithm::Unknown(0));
}

#[test]
fn reducing_by_version_keeps_the_order() {
    let all = all_cipher_suites();
    let v13 = reduce_given_version(&all, ProtocolVersion::TLSv1_3);
    assert_eq!(v13.len(), 3);
    assert_eq!(v13[0].suite(), CipherSuite::TLS13_AES_256_GCM_SHA384);
    assert_eq!(v13[1].suite(), CipherSuite::TLS13_AES_128_GCM_SHA256);
    assert_eq!(v13[2].suite(), CipherSuite::TLS13_CHACHA20_POLY1305_SHA256);
    let v12 = reduce_given_version(&all, ProtocolVersion::TLSv1_2);
    assert_eq!(v12.len(), 6);
    assert_eq!(v12[0].suite(), CipherSuite::TLS_ECDHE_ECDSA_WITH_AES_256_GCM_SHA384);
    assert_eq!(v12[5].suite(), CipherSuite::TLS_ECDHE_RSA_WITH_CHACHA20_POLY1305_SHA256);
    assert!(reduce_given_version(&all, ProtocolVersion::TLSv1_1).is_empty());
}

#[test]
fn reducing_by_signature_algorithm_keeps_tls13_and_the_matching_tls12_suites() {
    let all = all_cipher_suites();
    let rsa = reduce_given_sigalg(&all, SignatureAlgorithm::RSA);
    assert_eq!(rsa.len(), 6);
    assert_eq!(rsa[3].suite(), CipherSuite::TLS_ECDHE_RSA_WITH_AES_256_GCM_SHA384);
    let ecdsa = reduce_given_sigalg(&all, SignatureAlgorithm::ECDSA);
    assert_eq!(ecdsa.len(), 6);
    assert_eq!(ecdsa[3].suite(), CipherSuite::TLS_ECDHE_ECDSA_WITH_AES_256_GCM_SHA384);
    let dsa = reduce_given_sigalg(&all, SignatureAlgorithm::DSA);
    assert_eq!(dsa.len(), 3);
}

#[test]
fn a_scheme_is_compatible_when_one_suite_is_usable_for_its_algorithm() {
    let rsa_only = vec![SupportedCipherSuite::Tls12(tls_ecdhe_rsa_with_aes_128_gcm_sha256())];
    assert!(compatible_sigscheme_for_suites(SignatureScheme::RSA_PSS_SHA256, &rsa_only));
    assert!(!compatible_sigscheme_for_suites(SignatureScheme::ECDSA_NISTP256_SHA256, &rsa_only));
    assert!(!compatible_sigscheme_for_suites(SignatureScheme::RSA_PSS_SHA256, &[]));
    assert!(compatible_sigscheme_for_suites(
        SignatureScheme::ECDSA_NISTP256_SHA256,
        &all_cipher_suites()
    ));
}

#[test]
fn resolving_signature_schemes_follows_the_suite_order() {
    let suite = tls_ecdhe_rsa_with_aes_128_gcm_sha256();
    let offered = [
        SignatureScheme::RSA_PKCS1_SHA256,
        SignatureScheme::ECDSA_NISTP256_SHA256,
        SignatureScheme::RSA_PSS_SHA512,
    ];
    assert_eq!(
        suite.resolve_sig_schemes(&offered),
        vec![SignatureScheme::RSA_PSS_SHA512, SignatureScheme::RSA_PKCS1_SHA256]
    );
    assert!(suite.resolve_sig_schemes(&[SignatureScheme::ED25519]).is_empty());
    assert!(suite.resolve_sig_schemes(&[]).is_empty());
}

#[test]
fn suites_carry_their_parameters() {
    let s = tls_ecdhe_rsa_with_aes_128_gcm_sha256();
    assert_eq!(s.common.bulk, BulkAlgorithm::Aes128Gcm);
    assert_eq!(s.fixed_iv_len(), 4);
    assert_eq!(s.explicit_nonce_len(), 8);
    assert_eq!(s.get_hash(), HashAlgorithm::Sha256);
    let s = tls_ecdhe_ecdsa_with_chacha20_poly1305_sha256();
    assert_eq!(s.fixed_iv_len(), 12);
    assert_eq!(s.explicit_nonce_len(), 0);
    assert_eq!(s.sign.len(), 4);
    let s = tls_ecdhe_rsa_with_aes_256_gcm_sha384();
    assert_eq!(s.get_hash(), HashAlgorithm::Sha384);
    assert_eq!(SupportedCipherSuite::Tls12(s).get_hash(), HashAlgorithm::Sha384);
    assert_eq!(tls13_aes_256_gcm_sha384().get_hash(), HashAlgorithm::Sha384);
    assert_eq!(
        SupportedCipherSuite::Tls13(tls13_chacha20_poly1305_sha256()).get_hash(),
        HashAlgorithm::Sha256
    );
    assert_eq!(SupportedCipherSuite::Tls12(s).tls13(), None);
    assert_eq!(
        SupportedCipherSuite::Tls13(tls13_aes_128_gcm_sha256()).tls13(),
        Some(tls13_aes_128_gcm_sha256())
    );
    assert_eq!(default_cipher_suites().len(), 9);
    assert_eq!(
        SupportedCipherSuite::Tls12(s).common().suite,
        CipherSuite::TLS_ECDHE_RSA_WITH_AES_256_GCM_SHA384
    );
    assert_eq!(CipherSuite::TLS13_AES_128_GCM_SHA256.get_u16(), 0x1301);
    assert_eq!(CipherSuite::from_u16(0xc02f), CipherSuite::TLS_ECDHE_RSA_WITH_AES_128_GCM_SHA256);
    assert_eq!(CipherSuite::from_u16(0x1234), CipherSuite::Unknown(0x1234));
}
