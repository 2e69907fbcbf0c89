use vstd::prelude::*;
use crate::error::{CryptoField, KTlsError};
use crate::registry::{CipherType, TlsCryptoInfo, TlsVersion};

verus! {

broadcast use vstd::array::group_array_axioms;

/// A kernel crypto record: the header followed by the initialization vector,
/// key, salt and record sequence number, each of the width the cipher fixes.
#[derive(Clone, Copy, Debug, PartialEq, Eq)]
pub struct TlsCryptVectors<const I: usize, const K: usize, const S: usize, const R: usize> {
    pub info: TlsCryptoInfo,
    pub iv: [u8; I],
    pub key: [u8; K],
    pub salt: [u8; S],
    pub rec_seq: [u8; R],
}

/// The kernel's `tls12_crypto_info_aes_gcm_128`.
pub type Tls12AesGcm128 = TlsCryptVectors<8, 16, 4, 8>;

/// Copies `v` into an array of the same length.
fn to_array<const N: usize>(v: &Vec<u8>) -> (r: [u8; N])
    requires
        v@.len() == N,
    ensures
        r@ == v@,
{
    let mut a: [u8; N] = [0u8; N];
    let mut i: usize = 0;
    while i < N
        invariant
            v@.len() == N,
            0 <= i <= N,
            a@.len() == N,
            forall|j: int| 0 <= j < i ==> a@[j] == v@[j],
        decreases N - i,
    {
        a[i] = v[i];
        i = i + 1;
    }
    assert(a@ =~= v@);
    a
}

/// The first of the four buffers, in record order, whose length differs from
/// its width, if any.
pub open spec fn first_bad_field(
    iv_len: nat,
    key_len: nat,
    salt_len: nat,
    rec_seq_len: nat,
    i: nat,
    k: nat,
    s: nat,
    r: nat,
) -> Option<CryptoField> {
    if iv_len != i {
        Some(CryptoField::Iv)
    } else if key_len != k {
        Some(CryptoField::Key)
    } else if salt_len != s {
        Some(CryptoField::Salt)
    } else if rec_seq_len != r {
        Some(CryptoField::RecSeq)
    } else {
        None
    }
}

/// A 16-bit integer as the kernel reads it: two bytes, low byte first.
pub open spec fn u16_le(x: u16) -> Seq<u8> {
    seq![(x % 256) as u8, (x / 256) as u8]
}

/// The four header bytes: version code, then cipher code.
pub open spec fn header_bytes(info: TlsCryptoInfo) -> Seq<u8> {
    u16_le(info.version.spec_code()) + u16_le(info.cipher_type.spec_code())
}

fn push_u16_le(out: &mut Vec<u8>, x: u16)
    ensures
        final(out)@ == old(out)@ + u16_le(x),
{
    out.push((x % 256) as u8);
    out.push((x / 256) as u8);
    assert(final(out)@ =~= old(out)@ + u16_le(x));
}

fn push_all<const N: usize>(out: &mut Vec<u8>, a: &[u8; N])
    ensures
        final(out)@ == old(out)@ + a@,
{
    let ghost start = out@;
    let mut i: usize = 0;
    while i < N
        invariant
            0 <= i <= N,
            a@.len() == N,
            out@ =~= start + a@.subrange(0, i as int),
        decreases N - i,
    {
        out.push(a[i]);
        i = i + 1;
    }
    assert(a@.subrange(0, N as int) =~= a@);
}

impl<const I: usize, const K: usize, const S: usize, const R: usize> TlsCryptVectors<I, K, S, R> {
    /// The record exactly as the kernel receives it: the header, then the
    /// four buffers, with no padding anywhere.
    pub open spec fn layout(self) -> Seq<u8> {
        header_bytes(self.info) + self.iv@ + self.key@ + self.salt@ + self.rec_seq@
    }

    /// Serializes the record into the bytes handed to the kernel.
    pub fn to_bytes(&self) -> (r: Vec<u8>)
        ensures
            r@ == self.layout(),
    {
        let mut out: Vec<u8> = Vec::new();
        push_u16_le(&mut out, self.info.version.code());
        push_u16_le(&mut out, self.info.cipher_type.code());
        push_all(&mut out, &self.iv);
        push_all(&mut out, &self.key);
        push_all(&mut out, &self.salt);
        push_all(&mut out, &self.rec_seq);
        out
    }

    /// Builds the record from caller-supplied key material. Each buffer must
    /// have exactly its width; the first one that does not is named in the
    /// error. On success the bytes are copied verbatim.
    pub fn new(
        info: TlsCryptoInfo,
        iv: Vec<u8>,
        key: Vec<u8>,
        salt: Vec<u8>,
        rec_seq: Vec<u8>,
    ) -> (r: Result<Self, KTlsError>)
        ensures
            match first_bad_field(
                iv@.len(),
                key@.len(),
                salt@.len(),
                rec_seq@.len(),
                I as nat,
                K as nat,
                S as nat,
                R as nat,
            ) {
                Some(f) => r == Err::<Self, KTlsError>(KTlsError::InvalidArgument { field: f }),
                None => r matches Ok(v) && v.info == info && v.iv@ == iv@ && v.key@ == key@
                    && v.salt@ == salt@ && v.rec_seq@ == rec_seq@,
            },
    {
        if iv.len() != I {
            return Err(KTlsError::InvalidArgument { field: CryptoField::Iv });
        }
        if key.len() != K {
            return Err(KTlsError::InvalidArgument { field: CryptoField::Key });
        }
        if salt.len() != S {
            return Err(KTlsError::InvalidArgument { field: CryptoField::Salt });
        }
        if rec_seq.len() != R {
            return Err(KTlsError::InvalidArgument { field: CryptoField::RecSeq });
        }
        Ok(TlsCryptVectors {
            info,
            iv: to_array(&iv),
            key: to_array(&key),
            salt: to_array(&salt),
            rec_seq: to_array(&rec_seq),
        })
    }
}

/// The widths of iv, key, salt and record sequence that a header fixes.
pub open spec fn record_widths(info: TlsCryptoInfo) -> (nat, nat, nat, nat) {
    match (info.version, info.cipher_type) {
        (TlsVersion::Tls12, CipherType::AesGcm128) => (8, 16, 4, 8),
    }
}

/// The first buffer whose length differs from the width `info` fixes for it.
pub open spec fn first_bad_field_for(
    info: TlsCryptoInfo,
    iv: Seq<u8>,
    key: Seq<u8>,
    salt: Seq<u8>,
    rec_seq: Seq<u8>,
) -> Option<CryptoField> {
    let (i, k, s, r) = record_widths(info);
    first_bad_field(iv.len(), key.len(), salt.len(), rec_seq.len(), i, k, s, r)
}

/// A crypto record of one of the supported headers; each variant holds the
/// layout of its own cipher.
#[derive(Clone, Copy, Debug, PartialEq, Eq)]
pub enum CryptoRecord {
    Tls12AesGcm128(Tls12AesGcm128),
}

impl CryptoRecord {
    pub open spec fn layout(self) -> Seq<u8> {
        match self {
            CryptoRecord::Tls12AesGcm128(v) => v.layout(),
        }
    }

    /// Builds the record that `info` calls for from caller-supplied key
    /// material.
    pub fn build(
        info: TlsCryptoInfo,
        iv: Vec<u8>,
        key: Vec<u8>,
        salt: Vec<u8>,
        rec_seq: Vec<u8>,
    ) -> (r: Result<Self, KTlsError>)
        ensures
            match first_bad_field_for(info, iv@, key@, salt@, rec_seq@) {
                Some(f) => r == Err::<Self, KTlsError>(KTlsError::InvalidArgument { field: f }),
                None => r matches Ok(rec) && rec.layout() == header_bytes(info) + iv@ + key@
                    + salt@ + rec_seq@,
            },
    {
        match (info.version, info.cipher_type) {
            (TlsVersion::Tls12, CipherType::AesGcm128) => {
                match Tls12AesGcm128::new(info, iv, key, salt, rec_seq) {
                    Ok(v) => Ok(CryptoRecord::Tls12AesGcm128(v)),
                    Err(e) => Err(e),
                }
            },
        }
    }

    /// Serializes the record into the bytes handed to the kernel.
    pub fn to_bytes(&self) -> (r: Vec<u8>)
        ensures
            r@ == self.layout(),
    {
        match self {
            CryptoRecord::Tls12AesGcm128(v) => v.to_bytes(),
        }
    }
}

/// The AES-128-GCM record is 40 bytes, `4 + 8 + 16 + 4 + 8`, and each field
/// is read back verbatim at its fixed offset: version code at 0, cipher code
/// at 2, iv at 4, key at 12, salt at 28 and record sequence at 32.
pub proof fn lemma_aes_gcm_128_layout(v: Tls12AesGcm128)
    ensures
        v.layout().len() == 40,
        v.layout().subrange(0, 2) == u16_le(v.info.version.spec_code()),
        v.layout().subrange(2, 4) == u16_le(v.info.cipher_type.spec_code()),
        v.layout().subrange(4, 12) == v.iv@,
        v.layout().subrange(12, 28) == v.key@,
        v.layout().subrange(28, 32) == v.salt@,
        v.layout().subrange(32, 40) == v.rec_seq@,
{
    let l = v.layout();
    assert(l.subrange(0, 2) =~= u16_le(v.info.version.spec_code()));
    assert(l.subrange(2, 4) =~= u16_le(v.info.cipher_type.spec_code()));
    assert(l.subrange(4, 12) =~= v.iv@);
    assert(l.subrange(12, 28) =~= v.key@);
    assert(l.subrange(28, 32) =~= v.salt@);
    assert(l.subrange(32, 40) =~= v.rec_seq@);
}

/// The AES-128-GCM header of TLS 1.2 carries the codes `0x0303` and `51`,
/// and so its first four bytes are `03 03 33 00`.
pub proof fn lemma_tls12_aes_gcm_128_header()
    ensures
        ({
            let info = TlsCryptoInfo { version: TlsVersion::Tls12, cipher_type: CipherType::AesGcm128 };
            &&& info.version.spec_code() == 0x0303
            &&& info.cipher_type.spec_code() == 51
            &&& header_bytes(info) == seq![0x03u8, 0x03u8, 51u8, 0u8]
        }),
{
    let info = TlsCryptoInfo { version: TlsVersion::Tls12, cipher_type: CipherType::AesGcm128 };
    assert(header_bytes(info) =~= seq![0x03u8, 0x03u8, 51u8, 0u8]);
}

/// For AES-128-GCM under TLS 1.2 the key material is accepted exactly when
/// iv, key, salt and record sequence have lengths 8, 16, 4 and 8; when just one
/// of them has another length, that one is named, whatever the bytes.
pub proof fn lemma_aes_gcm_128_fields(
    info: TlsCryptoInfo,
    iv: Seq<u8>,
    key: Seq<u8>,
    salt: Seq<u8>,
    rec_seq: Seq<u8>,
)
    requires
        info == (TlsCryptoInfo { version: TlsVersion::Tls12, cipher_type: CipherType::AesGcm128 }),
    ensures
        first_bad_field_for(info, iv, key, salt, rec_seq) is None <==> (iv.len() == 8
            && key.len() == 16 && salt.len() == 4 && rec_seq.len() == 8),
        iv.len() != 8 && key.len() == 16 && salt.len() == 4 && rec_seq.len() == 8
            ==> first_bad_field_for(info, iv, key, salt, rec_seq) == Some(CryptoField::Iv),
        iv.len() == 8 && key.len() != 16 && salt.len() == 4 && rec_seq.len() == 8
            ==> first_bad_field_for(info, iv, key, salt, rec_seq) == Some(CryptoField::Key),
        iv.len() == 8 && key.len() == 16 && salt.len() != 4 && rec_seq.len() == 8
            ==> first_bad_field_for(info, iv, key, salt, rec_seq) == Some(CryptoField::Salt),
        iv.len() == 8 && key.len() == 16 && salt.len() == 4 && rec_seq.len() != 8
            ==> first_bad_field_for(info, iv, key, salt, rec_seq) == Some(CryptoField::RecSeq),
{
}

} // verus!
