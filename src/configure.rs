use vstd::prelude::*;
use crate::error::{KTlsError, SocketStep};
use crate::record::{first_bad_field_for, header_bytes, lemma_tls12_aes_gcm_128_header, CryptoRecord};
use crate::registry::{spec_classify, TlsCryptoInfo};

verus! {

/// Socket-option level of TCP (`SOL_TCP`).
pub const SOL_TCP: i32 = 6;

/// Socket-option level of TLS (`SOL_TLS`).
pub const SOL_TLS: i32 = 282;

/// TCP option that installs an upper-layer protocol (`TCP_ULP`).
pub const TCP_ULP: i32 = 31;

/// TLS option that installs the transmit crypto record (`TLS_TX`).
pub const TLS_TX: i32 = 1;

/// The option value for `TLS_TX`, given the negotiated protocol and cipher
/// suite and the key material: the cipher's record, byte for byte.
pub open spec fn spec_tls_tx_record(
    protocol: Seq<char>,
    cipher_suite: Seq<char>,
    iv: Seq<u8>,
    key: Seq<u8>,
    salt: Seq<u8>,
    rec_seq: Seq<u8>,
) -> Seq<u8>
    recommends
        spec_classify(protocol, cipher_suite) is Some,
{
    header_bytes(spec_classify(protocol, cipher_suite).unwrap()) + iv + key + salt + rec_seq
}

/// For a supported pair and key material of the right widths, the `TLS_TX`
/// bytes begin with the TLS 1.2 / AES-128-GCM codes `03 03 33 00` and then
/// hold iv, key, salt and record sequence verbatim, 40 bytes in all.
pub proof fn lemma_tls_tx_record_verbatim(
    protocol: Seq<char>,
    cipher_suite: Seq<char>,
    iv: Seq<u8>,
    key: Seq<u8>,
    salt: Seq<u8>,
    rec_seq: Seq<u8>,
)
    requires
        spec_classify(protocol, cipher_suite) is Some,
        first_bad_field_for(spec_classify(protocol, cipher_suite).unwrap(), iv, key, salt, rec_seq)
            is None,
    ensures
        ({
            let b = spec_tls_tx_record(protocol, cipher_suite, iv, key, salt, rec_seq);
            &&& b.len() == 40
            &&& b.subrange(0, 4) == seq![0x03u8, 0x03u8, 51u8, 0u8]
            &&& b.subrange(4, 12) == iv
            &&& b.subrange(12, 28) == key
            &&& b.subrange(28, 32) == salt
            &&& b.subrange(32, 40) == rec_seq
        }),
{
    lemma_tls12_aes_gcm_128_header();
    let b = spec_tls_tx_record(protocol, cipher_suite, iv, key, salt, rec_seq);
    assert(b.subrange(0, 4) =~= seq![0x03u8, 0x03u8, 51u8, 0u8]);
    assert(b.subrange(4, 12) =~= iv);
    assert(b.subrange(12, 28) =~= key);
    assert(b.subrange(28, 32) =~= salt);
    assert(b.subrange(32, 40) =~= rec_seq);
}

/// Classifies the pair, checks the key material against the cipher's widths
/// and returns the bytes to install with `TLS_TX`. An unsupported pair is
/// reported before the key material is looked at.
pub fn tls_tx_record(
    protocol: &str,
    cipher_suite: &str,
    iv: Vec<u8>,
    key: Vec<u8>,
    salt: Vec<u8>,
    rec_seq: Vec<u8>,
) -> (r: Result<Vec<u8>, KTlsError>)
    ensures
        match spec_classify(protocol@, cipher_suite@) {
            None => r matches Err(KTlsError::UnsupportedCipher { protocol: p, cipher_suite: c })
                && p@ == protocol@ && c@ == cipher_suite@,
            Some(info) => match first_bad_field_for(info, iv@, key@, salt@, rec_seq@) {
                Some(f) => r == Err::<Vec<u8>, KTlsError>(KTlsError::InvalidArgument { field: f }),
                None => r matches Ok(bytes) && bytes@ == spec_tls_tx_record(
                    protocol@,
                    cipher_suite@,
                    iv@,
                    key@,
                    salt@,
                    rec_seq@,
                ),
            },
        },
{
    let info = match TlsCryptoInfo::new(protocol, cipher_suite) {
        Ok(info) => info,
        Err(e) => return Err(e),
    };
    match CryptoRecord::build(info, iv, key, salt, rec_seq) {
        Ok(rec) => Ok(rec.to_bytes()),
        Err(e) => Err(e),
    }
}

/// Interprets the return value of a socket-option call: zero is success;
/// anything else is a failure carrying that value and the `errno` read right
/// after the call.
pub fn socket_outcome(step: SocketStep, ret: i32, errno: i32) -> (r: Result<(), KTlsError>)
    ensures
        ret == 0 ==> r == Ok::<(), KTlsError>(()),
        ret != 0 ==> r == Err::<(), KTlsError>(
            KTlsError::Socket { step, ret: ret as i64, errno },
        ),
{
    if ret == 0 {
        Ok(())
    } else {
        Err(KTlsError::Socket { step, ret: ret as i64, errno })
    }
}

/// Interprets the outcome of a zero-copy transfer: the number of bytes the
/// kernel moved, or the `errno` it failed with.
pub fn transfer_outcome(sent: Result<usize, i32>) -> (r: Result<i64, KTlsError>)
    ensures
        match sent {
            Ok(n) => r == Ok::<i64, KTlsError>(n as i64),
            Err(e) => r == Err::<i64, KTlsError>(
                KTlsError::Socket { step: SocketStep::SendFile, ret: -1i64, errno: e },
            ),
        },
{
    match sent {
        Ok(n) => Ok(n as i64),
        Err(e) => Err(KTlsError::Socket { step: SocketStep::SendFile, ret: -1, errno: e }),
    }
}

} // verus!
