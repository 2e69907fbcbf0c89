//! Configuration of Linux kernel TLS offload (kTLS): classification of a
//! negotiated protocol and cipher suite, construction of the kernel's
//! fixed-size crypto record, and interpretation of the kernel's answers.
pub mod configure;
pub mod error;
pub mod record;
pub mod registry;

pub use configure::{socket_outcome, tls_tx_record, transfer_outcome, SOL_TCP, SOL_TLS, TCP_ULP, TLS_TX};
pub use error::{
    CryptoField, KTlsError, SocketStep, ILLEGAL_ARGUMENT_EXCEPTION_CLASS, SOCKET_EXCEPTION_CLASS,
    UNSUPPORTED_OPERATION_EXCEPTION_CLASS,
};
pub use record::{CryptoRecord, Tls12AesGcm128, TlsCryptVectors};
pub use registry::{CipherType, TlsCryptoInfo, TlsVersion, TLS_1_2_VERSION, TLS_CIPHER_AES_GCM_128};
