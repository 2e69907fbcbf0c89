use vstd::prelude::*;
use vstd::string::StringExecFns;

verus! {

/// A key-material buffer of the crypto record.
#[derive(Clone, Copy, Debug, PartialEq, Eq, Structural)]
pub enum CryptoField {
    Iv,
    Key,
    Salt,
    RecSeq,
}

/// The kernel call that failed.
#[derive(Clone, Copy, Debug, PartialEq, Eq, Structural)]
pub enum SocketStep {
    /// Installing the upper-layer protocol (`TCP_ULP`).
    TcpUlp,
    /// Installing the transmit crypto record (`TLS_TX`).
    TlsTx,
    /// The zero-copy transfer (`sendfile`).
    SendFile,
}

/// Every failure this library reports.
#[derive(Debug, PartialEq, Eq)]
pub enum KTlsError {
    /// The pair has no known kernel layout; both inputs are kept verbatim.
    UnsupportedCipher { protocol: String, cipher_suite: String },
    /// A key-material buffer does not have the width the cipher fixes.
    InvalidArgument { field: CryptoField },
    /// The kernel rejected a call: its raw return value and `errno`.
    Socket { step: SocketStep, ret: i64, errno: i32 },
    /// The zero-copy transfer is not available on this platform.
    UnsupportedPlatform,
}

/// Java class raised for a kernel rejection.
pub const SOCKET_EXCEPTION_CLASS: &'static str = "java/net/SocketException";

/// Java class raised for an unsupported cipher or platform.
pub const UNSUPPORTED_OPERATION_EXCEPTION_CLASS: &'static str = "java/lang/UnsupportedOperationException";

/// Java class raised for malformed key material.
pub const ILLEGAL_ARGUMENT_EXCEPTION_CLASS: &'static str = "java/lang/IllegalArgumentException";

/// The text of an `errno` value as nix displays it: the constant's name, a
/// colon and the description from nix's own table for the target.
pub uninterp spec fn errno_text(errno: i32) -> Seq<char>;

/// Relies on `Display` for `nix::errno::Errno` (after `Errno::from_i32`):
/// its text depends on the code alone.
#[verifier::external_body]
fn errno_display(errno: i32) -> (r: String)
    ensures
        r@ == errno_text(errno),
{
    nix::errno::Errno::from_i32(errno).to_string()
}

pub open spec fn digit_char(d: nat) -> char {
    seq!['0', '1', '2', '3', '4', '5', '6', '7', '8', '9'][d as int]
}

/// The decimal digits of `n`, most significant first.
pub open spec fn decimal(n: nat) -> Seq<char>
    decreases n,
{
    if n < 10 {
        seq![digit_char(n)]
    } else {
        decimal(n / 10) + seq![digit_char(n % 10)]
    }
}

/// `x` in decimal, with a leading `-` when negative.
pub open spec fn signed_decimal(x: int) -> Seq<char> {
    if x < 0 {
        seq!['-'] + decimal((-x) as nat)
    } else {
        decimal(x as nat)
    }
}

fn digit_str(d: u64) -> (r: &'static str)
    requires
        d < 10,
    ensures
        r@ == seq![digit_char(d as nat)],
{
    proof {
        reveal_strlit("0");
        reveal_strlit("1");
        reveal_strlit("2");
        reveal_strlit("3");
        reveal_strlit("4");
        reveal_strlit("5");
        reveal_strlit("6");
        reveal_strlit("7");
        reveal_strlit("8");
        reveal_strlit("9");
    }
    let r = match d {
        0 => "0",
        1 => "1",
        2 => "2",
        3 => "3",
        4 => "4",
        5 => "5",
        6 => "6",
        7 => "7",
        8 => "8",
        _ => "9",
    };
    assert(r@ =~= seq![digit_char(d as nat)]);
    r
}

fn append_decimal(s: &mut String, n: u64)
    ensures
        final(s)@ == old(s)@ + decimal(n as nat),
    decreases n,
{
    if n >= 10 {
        append_decimal(s, n / 10);
    }
    s.append(digit_str(n % 10));
    assert(final(s)@ =~= old(s)@ + decimal(n as nat));
}

fn append_signed_decimal(s: &mut String, x: i64)
    ensures
        final(s)@ == old(s)@ + signed_decimal(x as int),
{
    if x < 0 {
        proof {
            reveal_strlit("-");
        }
        s.append("-");
        let m: u64 = (-(x + 1)) as u64 + 1;
        append_decimal(s, m);
        assert(final(s)@ =~= old(s)@ + signed_decimal(x as int));
    } else {
        append_decimal(s, x as u64);
    }
}

impl SocketStep {
    /// The words that open the message of a failure of this call.
    pub open spec fn spec_prefix(self) -> Seq<char> {
        match self {
            SocketStep::TcpUlp => "Failed to set TCP_ULP"@,
            SocketStep::TlsTx => "Failed to set TLS_TX"@,
            SocketStep::SendFile => "Failed to sendfile"@,
        }
    }

    pub fn prefix(self) -> (r: &'static str)
        ensures
            r@ == self.spec_prefix(),
    {
        match self {
            SocketStep::TcpUlp => "Failed to set TCP_ULP",
            SocketStep::TlsTx => "Failed to set TLS_TX",
            SocketStep::SendFile => "Failed to sendfile",
        }
    }
}

impl CryptoField {
    /// The field's name as the record calls it.
    pub open spec fn spec_name(self) -> Seq<char> {
        match self {
            CryptoField::Iv => "iv"@,
            CryptoField::Key => "key"@,
            CryptoField::Salt => "salt"@,
            CryptoField::RecSeq => "rec_seq"@,
        }
    }

    pub fn name(self) -> (r: &'static str)
        ensures
            r@ == self.spec_name(),
    {
        match self {
            CryptoField::Iv => "iv",
            CryptoField::Key => "key",
            CryptoField::Salt => "salt",
            CryptoField::RecSeq => "rec_seq",
        }
    }
}

impl KTlsError {
    pub open spec fn spec_exception_class(&self) -> Seq<char> {
        match self {
            KTlsError::Socket { .. } => SOCKET_EXCEPTION_CLASS@,
            KTlsError::UnsupportedCipher { .. } => UNSUPPORTED_OPERATION_EXCEPTION_CLASS@,
            KTlsError::UnsupportedPlatform => UNSUPPORTED_OPERATION_EXCEPTION_CLASS@,
            KTlsError::InvalidArgument { .. } => ILLEGAL_ARGUMENT_EXCEPTION_CLASS@,
        }
    }

    /// The Java exception class the caller raises for this failure.
    pub fn exception_class(&self) -> (r: &'static str)
        ensures
            r@ == self.spec_exception_class(),
    {
        match self {
            KTlsError::Socket { .. } => SOCKET_EXCEPTION_CLASS,
            KTlsError::UnsupportedCipher { .. } => UNSUPPORTED_OPERATION_EXCEPTION_CLASS,
            KTlsError::UnsupportedPlatform => UNSUPPORTED_OPERATION_EXCEPTION_CLASS,
            KTlsError::InvalidArgument { .. } => ILLEGAL_ARGUMENT_EXCEPTION_CLASS,
        }
    }

    pub open spec fn spec_message(&self) -> Seq<char> {
        match self {
            KTlsError::Socket { step, ret, errno } => step.spec_prefix() + ". returned: "@
                + signed_decimal(*ret as int) + ", errno: "@ + errno_text(*errno),
            KTlsError::UnsupportedCipher { protocol, cipher_suite } => "Unsupported: protocol="@
                + protocol@ + ", cipherSuite="@ + cipher_suite@,
            KTlsError::UnsupportedPlatform => "Currently only linux is supported"@,
            KTlsError::InvalidArgument { field } => "invalid "@ + field.spec_name(),
        }
    }

    /// A human-readable message; a kernel rejection names the call, its raw
    /// return value and the `errno` text.
    pub fn message(&self) -> (r: String)
        ensures
            r@ == self.spec_message(),
    {
        match self {
            KTlsError::Socket { step, ret, errno } => {
                let mut s = String::from_str(step.prefix());
                s.append(". returned: ");
                append_signed_decimal(&mut s, *ret);
                s.append(", errno: ");
                let e = errno_display(*errno);
                s.append(e.as_str());
                s
            },
            KTlsError::UnsupportedCipher { protocol, cipher_suite } => {
                let mut s = String::from_str("Unsupported: protocol=");
                s.append(protocol.as_str());
                s.append(", cipherSuite=");
                s.append(cipher_suite.as_str());
                s
            },
            KTlsError::UnsupportedPlatform => String::from_str("Currently only linux is supported"),
            KTlsError::InvalidArgument { field } => {
                let s = String::from_str("invalid ");
                s.concat(field.name())
            },
        }
    }
}

} // verus!
