use vstd::prelude::*;

verus! {

/// The syntax of a bound value, as announced by its tag byte.
#[derive(Debug, Clone, Copy, PartialEq, Eq, Structural)]
pub enum VarType {
    Boolean,
    Integer,
    /// Same tag space as `Integer` for the protocol engine, but distinct in
    /// MIB syntax (no enumerations).
    Integer32,
    BitStr,
    OctetStr,
    Null,
    Oid,
    Sequence,
    /// An ASN.1 set.
    SetOf,
    IpAddress,
    Counter,
    Gauge,
    TimeTicks,
    Opaque,
    Counter64,
    Float,
    Double,
    Integer64,
    Unsigned64,
    /// Never sent on the wire; MAC addresses travel as octet strings.
    MacAddress,
}

/// An out-of-band marker that stands in place of a value.
#[derive(Debug, Clone, Copy, PartialEq, Eq, Structural)]
pub enum ErrType {
    /// Tag zero, seen on variables that carry no value at all.
    Undefined,
    /// A tag this library does not decode; carries the tag byte.
    NotImplemented(u8),
    NoSuchObject,
    NoSuchInstance,
    EndOfMibView,
}

impl VarType {
    /// The tag byte that announces this syntax.
    pub open spec fn spec_code(self) -> u8 {
        match self {
            VarType::Boolean => 0x01,
            VarType::Integer => 0x02,
            VarType::Integer32 => 0xfe,
            VarType::BitStr => 0x03,
            VarType::OctetStr => 0x04,
            VarType::Null => 0x05,
            VarType::Oid => 0x06,
            VarType::Sequence => 0x10,
            VarType::SetOf => 0x11,
            VarType::IpAddress => 0x40,
            VarType::Counter => 0x41,
            VarType::Gauge => 0x42,
            VarType::TimeTicks => 0x43,
            VarType::Opaque => 0x44,
            VarType::Counter64 => 0x46,
            VarType::Float => 0x48,
            VarType::Double => 0x49,
            VarType::Integer64 => 0x50,
            VarType::Unsigned64 => 0x51,
            VarType::MacAddress => 0xff,
        }
    }

    /// The tag byte that announces this syntax.
    #[verifier::when_used_as_spec(spec_code)]
    pub fn code(self) -> (c: u8)
        ensures
            c == self.spec_code(),
    {
        match self {
            VarType::Boolean => 0x01,
            VarType::Integer => 0x02,
            VarType::Integer32 => 0xfe,
            VarType::BitStr => 0x03,
            VarType::OctetStr => 0x04,
            VarType::Null => 0x05,
            VarType::Oid => 0x06,
            VarType::Sequence => 0x10,
            VarType::SetOf => 0x11,
            VarType::IpAddress => 0x40,
            VarType::Counter => 0x41,
            VarType::Gauge => 0x42,
            VarType::TimeTicks => 0x43,
            VarType::Opaque => 0x44,
            VarType::Counter64 => 0x46,
            VarType::Float => 0x48,
            VarType::Double => 0x49,
            VarType::Integer64 => 0x50,
            VarType::Unsigned64 => 0x51,
            VarType::MacAddress => 0xff,
        }
    }
}

} // verus!
