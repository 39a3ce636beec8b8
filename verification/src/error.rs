use crate::oid::Oid;
use crate::text::decimal;
use crate::text::dotted;
use crate::text::push_decimal;
use vstd::prelude::*;
use vstd::string::*;

verus! {

/// Everything that can go wrong in this library.
#[derive(Debug, Clone)]
pub enum Error {
    /// A failure described by free text, timeouts among them.
    General(String),
    /// A transport could not be opened: application name, then address.
    Transport(String, String),
    /// The peer answered with an error status; holds its description.
    Packet(String),
    Response(String),
    /// The user-based security model refused something.
    Usm(String),
    /// A key could not be derived from a pass phrase.
    KeyError,
    OidsNotIncreasing,
    /// A component of a dotted identifier is not a number.
    OidParseError,
    NoSuchObject(Oid),
    /// A completion was announced with an operation code nobody knows.
    InvalidCallbackOp(i32),
    /// A message carried a command code nobody knows.
    InvalidMsg(u32),
    InvalidVersion(u32),
    /// A protocol version that exists but is not spoken here.
    UnsupportedVersion(&'static str),
    /// Text that has to end at its first NUL byte holds one inside, at this
    /// position.
    NulError(usize),
}

/// The decimal notation of a number that may be negative.
pub open spec fn signed_decimal(v: int) -> Seq<char> {
    if v < 0 {
        seq!['-'] + decimal((-v) as nat)
    } else {
        decimal(v as nat)
    }
}

/// What an error says of itself.
pub open spec fn message(err: Error) -> Seq<char> {
    match err {
        Error::General(msg) => msg@,
        Error::Transport(app, addr) => "Error in transport "@ + app@ + " on "@ + addr@,
        Error::Packet(msg) => "Error in packet: "@ + msg@,
        Error::Response(msg) => msg@,
        Error::Usm(msg) => "Usm error: "@ + msg@,
        Error::KeyError => "Key loading failed"@,
        Error::OidsNotIncreasing => "Oids not increasing"@,
        Error::OidParseError => "Failed to parse Oid component"@,
        Error::NoSuchObject(oid) => "No such object available at Oid "@ + dotted(oid@),
        Error::InvalidCallbackOp(val) => "Invalid callback op code: "@ + signed_decimal(
            val as int,
        ),
        Error::InvalidMsg(val) => "Invalid message code: "@ + decimal(val as nat),
        Error::InvalidVersion(val) => "Invalid version code: "@ + decimal(val as nat),
        Error::UnsupportedVersion(val) => "Unsupported snmp version: "@ + val@,
        Error::NulError(at) => "nul byte found in provided data at position: "@ + decimal(
            at as nat,
        ),
    }
}

impl Error {
    /// What the error says of itself, for people to read.
    pub fn to_string(&self) -> (res: String)
        ensures
            res@ == message(*self),
    {
        match self {
            Error::General(msg) => msg.clone(),
            Error::Transport(app, addr) => {
                let mut out = String::from_str("Error in transport ");
                out.append(app.as_str());
                out.append(" on ");
                out.append(addr.as_str());
                out
            },
            Error::Packet(msg) => String::from_str("Error in packet: ").concat(msg.as_str()),
            Error::Response(msg) => msg.clone(),
            Error::Usm(msg) => String::from_str("Usm error: ").concat(msg.as_str()),
            Error::KeyError => String::from_str("Key loading failed"),
            Error::OidsNotIncreasing => String::from_str("Oids not increasing"),
            Error::OidParseError => String::from_str("Failed to parse Oid component"),
            Error::NoSuchObject(oid) => {
                let text = oid.to_string();
                String::from_str("No such object available at Oid ").concat(text.as_str())
            },
            Error::InvalidCallbackOp(val) => {
                let mut out = String::from_str("Invalid callback op code: ");
                if *val < 0 {
                    proof {
                        reveal_strlit("-");
                    }
                    out.append("-");
                    let magnitude: u64 = (-(*val as i64)) as u64;
                    push_decimal(&mut out, magnitude);
                } else {
                    push_decimal(&mut out, *val as u64);
                }
                assert(out@ =~= message(*self));
                out
            },
            Error::InvalidMsg(val) => {
                let mut out = String::from_str("Invalid message code: ");
                push_decimal(&mut out, *val as u64);
                out
            },
            Error::InvalidVersion(val) => {
                let mut out = String::from_str("Invalid version code: ");
                push_decimal(&mut out, *val as u64);
                out
            },
            Error::UnsupportedVersion(val) => String::from_str(
                "Unsupported snmp version: ",
            ).concat(val),
            Error::NulError(at) => {
                let mut out = String::from_str("nul byte found in provided data at position: ");
                push_decimal(&mut out, *at as u64);
                out
            },
        }
    }
}

} // verus!
