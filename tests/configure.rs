use jktls::{socket_outcome, tls_tx_record, transfer_outcome, CryptoField, KTlsError, SocketStep};

#[test]
fn tls_tx_record_all_zero_key_material() {
    let bytes = tls_tx_record(
        "TLSv1.2",
        "TLS_RSA_WITH_AES_128_GCM_SHA256",
        vec![0; 8],
        vec![0; 16],
        vec![0; 4],
        vec![0; 8],
    )
    .unwrap();
    let mut expected = vec![0x03, 0x03, 51, 0];
    expected.extend([0u8; 36]);
    assert_eq!(bytes, expected);
}

#[test]
fn tls_tx_record_unsupported_before_key_material() {
    let r = tls_tx_record("TLSv1.3", "TLS_AES_128_GCM_SHA256", vec![], vec![], vec![], vec![]);
    assert_eq!(
        r,
        Err(KTlsError::UnsupportedCipher {
            protocol: "TLSv1.3".to_string(),
            cipher_suite: "TLS_AES_128_GCM_SHA256".to_string(),
        })
    );
}

#[test]
fn tls_tx_record_bad_key() {
    let r = tls_tx_record(
        "TLSv1.2",
        "TLS_RSA_WITH_AES_128_GCM_SHA256",
        vec![0; 8],
        vec![0; 32],
        vec![0; 4],
        vec![0; 8],
    );
    assert_eq!(r, Err(KTlsError::InvalidArgument { field: CryptoField::Key }));
}

#[test]
fn socket_outcome_zero_is_success() {
    assert_eq!(socket_outcome(SocketStep::TcpUlp, 0, 0), Ok(()));
    assert_eq!(socket_outcome(SocketStep::TlsTx, 0, 2), Ok(()));
}

#[test]
fn socket_outcome_nonzero_keeps_code_and_errno() {
    assert_eq!(
        socket_outcome(SocketStep::TcpUlp, -1, 2),
        Err(KTlsError::Socket { step: SocketStep::TcpUlp, ret: -1, errno: 2 })
    );
    assert_eq!(
        socket_outcome(SocketStep::TlsTx, 1, 22),
        Err(KTlsError::Socket { step: SocketStep::TlsTx, ret: 1, errno: 22 })
    );
}

#[test]
fn transfer_outcome_short_count_is_not_an_error() {
    assert_eq!(transfer_outcome(Ok(3)), Ok(3));
    assert_eq!(transfer_outcome(Ok(0)), Ok(0));
}

#[test]
fn transfer_outcome_error_keeps_errno() {
    assert_eq!(
        transfer_outcome(Err(9)),
        Err(KTlsError::Socket { step: SocketStep::SendFile, ret: -1, errno: 9 })
    );
}

#[test]
fn socket_error_message_names_call_return_and_errno() {
    let e = socket_outcome(SocketStep::TcpUlp, -1, 2).unwrap_err();
    assert_eq!(e.exception_class(), "java/net/SocketException");
    assert_eq!(
        e.message(),
        "Failed to set TCP_ULP. returned: -1, errno: ENOENT: No such file or directory"
    );
    let e = KTlsError::Socket { step: SocketStep::TlsTx, ret: -9223372036854775808, errno: 1 };
    assert_eq!(
        e.message(),
        "Failed to set TLS_TX. returned: -9223372036854775808, errno: EPERM: Operation not permitted"
    );
    let e = transfer_outcome(Err(9)).unwrap_err();
    assert_eq!(e.message(), "Failed to sendfile. returned: -1, errno: EBADF: Bad file number");
}

#[test]
fn socket_error_message_positive_return() {
    let e = socket_outcome(SocketStep::TlsTx, 1234567890, 22).unwrap_err();
    assert_eq!(e.message(), "Failed to set TLS_TX. returned: 1234567890, errno: EINVAL: Invalid argument");
}

#[test]
fn unsupported_cipher_message() {
    let e = KTlsError::UnsupportedCipher {
        protocol: "TLSv1.3".to_string(),
        cipher_suite: "TLS_AES_128_GCM_SHA256".to_string(),
    };
    assert_eq!(e.exception_class(), "java/lang/UnsupportedOperationException");
    assert_eq!(e.message(), "Unsupported: protocol=TLSv1.3, cipherSuite=TLS_AES_128_GCM_SHA256");
}

#[test]
fn invalid_argument_messages() {
    for (field, text) in [
        (CryptoField::Iv, "invalid iv"),
        (CryptoField::Key, "invalid key"),
        (CryptoField::Salt, "invalid salt"),
        (CryptoField::RecSeq, "invalid rec_seq"),
    ] {
        let e = KTlsError::InvalidArgument { field };
        assert_eq!(e.exception_class(), "java/lang/IllegalArgumentException");
        assert_eq!(e.message(), text);
    }
}

#[test]
fn unsupported_platform_message() {
    let e = KTlsError::UnsupportedPlatform;
    assert_eq!(e.exception_class(), "java/lang/UnsupportedOperationException");
    assert_eq!(e.message(), "Currently only linux is supported");
}
