use jktls::{CipherType, KTlsError, TlsCryptoInfo, TlsVersion};

fn unsupported(protocol: &str, cipher_suite: &str) -> KTlsError {
    KTlsError::UnsupportedCipher {
        protocol: protocol.to_string(),
        cipher_suite: cipher_suite.to_string(),
    }
}

#[test]
fn it_works() {
    let result = 2 + 2;
    assert_eq!(result, 4);
}

#[test]
fn new_crypt_info_success() {
    assert_eq!(
        TlsCryptoInfo::new("TLSv1.2", "TLS_RSA_WITH_AES_128_GCM_SHA256"),
        Ok(TlsCryptoInfo {
            version: TlsVersion::Tls12,
            cipher_type: CipherType::AesGcm128,
        })
    )
}

#[test]
fn new_crypt_info_invalid() {
    assert!(TlsCryptoInfo::new("foo", "bar").is_err());
}

#[test]
fn classify_unsupported_keeps_both_names() {
    assert_eq!(
        TlsCryptoInfo::new("TLSv1.3", "TLS_AES_128_GCM_SHA256"),
        Err(unsupported("TLSv1.3", "TLS_AES_128_GCM_SHA256"))
    );
}

#[test]
fn classify_rejects_case_variations() {
    for (p, c) in [
        ("tlsv1.2", "TLS_RSA_WITH_AES_128_GCM_SHA256"),
        ("TLSV1.2", "TLS_RSA_WITH_AES_128_GCM_SHA256"),
        ("TLSv1.2", "tls_rsa_with_aes_128_gcm_sha256"),
        ("TLSv1.2 ", "TLS_RSA_WITH_AES_128_GCM_SHA256"),
    ] {
        assert_eq!(TlsCryptoInfo::new(p, c), Err(unsupported(p, c)));
    }
}

#[test]
fn classify_rejects_empty_strings() {
    assert_eq!(TlsCryptoInfo::new("", ""), Err(unsupported("", "")));
    assert_eq!(
        TlsCryptoInfo::new("", "TLS_RSA_WITH_AES_128_GCM_SHA256"),
        Err(unsupported("", "TLS_RSA_WITH_AES_128_GCM_SHA256"))
    );
    assert_eq!(TlsCryptoInfo::new("TLSv1.2", ""), Err(unsupported("TLSv1.2", "")));
}

#[test]
fn classify_rejects_swapped_arguments() {
    let p = "TLS_RSA_WITH_AES_128_GCM_SHA256";
    let c = "TLSv1.2";
    assert_eq!(TlsCryptoInfo::new(p, c), Err(unsupported(p, c)));
}

#[test]
fn kernel_codes() {
    assert_eq!(TlsVersion::Tls12.code(), 0x0303);
    assert_eq!(CipherType::AesGcm128.code(), 51);
}
