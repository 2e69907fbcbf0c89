use vstd::prelude::*;
use crate::error::KTlsError;

verus! {

/// TLS protocol versions known to the kernel.
#[derive(Clone, Copy, Debug, PartialEq, Eq, Structural)]
pub enum TlsVersion {
    Tls12,
}

/// Cipher identifiers known to the kernel.
#[derive(Clone, Copy, Debug, PartialEq, Eq, Structural)]
pub enum CipherType {
    AesGcm128,
}

/// The kernel's `TLS_1_2_VERSION`.
pub const TLS_1_2_VERSION: u16 = 0x0303;

/// The kernel's `TLS_CIPHER_AES_GCM_128`.
pub const TLS_CIPHER_AES_GCM_128: u16 = 51;

impl TlsVersion {
    pub open spec fn spec_code(self) -> u16 {
        match self {
            TlsVersion::Tls12 => TLS_1_2_VERSION,
        }
    }

    /// The version's numeric code in the kernel ABI.
    pub fn code(self) -> (r: u16)
        ensures
            r == self.spec_code(),
    {
        match self {
            TlsVersion::Tls12 => TLS_1_2_VERSION,
        }
    }
}

impl CipherType {
    pub open spec fn spec_code(self) -> u16 {
        match self {
            CipherType::AesGcm128 => TLS_CIPHER_AES_GCM_128,
        }
    }

    /// The cipher's numeric code in the kernel ABI.
    pub fn code(self) -> (r: u16)
        ensures
            r == self.spec_code(),
    {
        match self {
            CipherType::AesGcm128 => TLS_CIPHER_AES_GCM_128,
        }
    }
}

/// The header of every kernel crypto record: protocol version and cipher.
#[derive(Clone, Copy, Debug, PartialEq, Eq, Structural)]
pub struct TlsCryptoInfo {
    pub version: TlsVersion,
    pub cipher_type: CipherType,
}

/// The registry: the header for a protocol and cipher-suite name, or `None`
/// for a pair that has no kernel layout.
pub open spec fn spec_classify(protocol: Seq<char>, cipher_suite: Seq<char>) -> Option<TlsCryptoInfo> {
    if protocol == "TLSv1.2"@ && cipher_suite == "TLS_RSA_WITH_AES_128_GCM_SHA256"@ {
        Some(TlsCryptoInfo { version: TlsVersion::Tls12, cipher_type: CipherType::AesGcm128 })
    } else {
        None
    }
}

fn str_eq(a: &str, b: &str) -> (r: bool)
    ensures
        r == (a@ == b@),
{
    a.to_owned() == b.to_owned()
}

impl TlsCryptoInfo {
    /// Classifies a negotiated protocol version and cipher suite, as the TLS
    /// layer names them.
    pub fn new(protocol: &str, cipher_suite: &str) -> (r: Result<Self, KTlsError>)
        ensures
            match r {
                Ok(info) => spec_classify(protocol@, cipher_suite@) == Some(info),
                Err(e) => {
                    &&& spec_classify(protocol@, cipher_suite@) is None
                    &&& (e matches KTlsError::UnsupportedCipher { protocol: p, cipher_suite: c }
                        && p@ == protocol@ && c@ == cipher_suite@)
                },
            },
    {
        if str_eq(protocol, "TLSv1.2") && str_eq(cipher_suite, "TLS_RSA_WITH_AES_128_GCM_SHA256") {
            Ok(TlsCryptoInfo { version: TlsVersion::Tls12, cipher_type: CipherType::AesGcm128 })
        } else {
            Err(KTlsError::UnsupportedCipher {
                protocol: protocol.to_owned(),
                cipher_suite: cipher_suite.to_owned(),
            })
        }
    }
}

} // verus!
