use crate::oid::Oid;
use crate::types::ErrType;
use crate::types::VarType;
use crate::value::Value;
use crate::value::ValueView;
use vstd::prelude::*;

verus! {

/// One bound variable as the protocol engine holds it: a name, the tag byte
/// of its value and the value's raw bytes. Numbers lie in the raw bytes as
/// machine words of eight bytes, least significant byte first.
#[derive(Debug)]
pub struct VariablePtr {
    name: Oid,
    tag: u8,
    payload: Vec<u8>,
}

/// A bound variable owned by the caller.
#[derive(Debug)]
pub struct Variable(VariablePtr);

/// What a variable holds, as mathematics.
pub struct VariableView {
    pub name: Seq<u64>,
    pub tag: u8,
    pub payload: Seq<u8>,
}

impl View for VariablePtr {
    type V = VariableView;

    closed spec fn view(&self) -> VariableView {
        VariableView { name: self.name@, tag: self.tag, payload: self.payload@ }
    }
}

impl View for Variable {
    type V = VariableView;

    closed spec fn view(&self) -> VariableView {
        self.0@
    }
}

/// The syntax that a tag byte announces, or the marker that stands in its
/// place.
pub open spec fn type_of_tag(tag: u8) -> Result<VarType, ErrType> {
    if tag == 0x01 {
        Ok(VarType::Boolean)
    } else if tag == 0x02 {
        Ok(VarType::Integer)
    } else if tag == 0x03 {
        Ok(VarType::BitStr)
    } else if tag == 0x04 {
        Ok(VarType::OctetStr)
    } else if tag == 0x05 {
        Ok(VarType::Null)
    } else if tag == 0x06 {
        Ok(VarType::Oid)
    } else if tag == 0x40 {
        Ok(VarType::IpAddress)
    } else if tag == 0x41 {
        Ok(VarType::Counter)
    } else if tag == 0x42 {
        Ok(VarType::Gauge)
    } else if tag == 0x43 {
        Ok(VarType::TimeTicks)
    } else if tag == 0x46 {
        Ok(VarType::Counter64)
    } else if tag == 0x48 {
        Ok(VarType::Float)
    } else if tag == 0x49 {
        Ok(VarType::Double)
    } else if tag == 0x50 {
        Ok(VarType::Integer64)
    } else if tag == 0x51 {
        Ok(VarType::Unsigned64)
    } else if tag == 0x00 {
        Err(ErrType::Undefined)
    } else if tag == 0x80 {
        Err(ErrType::NoSuchObject)
    } else if tag == 0x81 {
        Err(ErrType::NoSuchInstance)
    } else if tag == 0x82 {
        Err(ErrType::EndOfMibView)
    } else {
        Err(ErrType::NotImplemented(tag))
    }
}

/// The machine word that the eight bytes of `b` from index `at` on hold,
/// least significant byte first.
pub open spec fn word_at(b: Seq<u8>, at: int) -> u64 {
    (b[at] + 0x100 * b[at + 1] + 0x1_0000 * b[at + 2] + 0x100_0000 * b[at + 3] + 0x1_0000_0000
        * b[at + 4] + 0x100_0000_0000 * b[at + 5] + 0x1_0000_0000_0000 * b[at + 6]
        + 0x100_0000_0000_0000 * b[at + 7]) as u64
}

/// The half word that the four bytes of `b` from index `at` on hold, least
/// significant byte first.
pub open spec fn half_word_at(b: Seq<u8>, at: int) -> u32 {
    (b[at] + 0x100 * b[at + 1] + 0x1_0000 * b[at + 2] + 0x100_0000 * b[at + 3]) as u32
}

/// A machine word read as a signed number in two's complement.
pub open spec fn signed(w: u64) -> i64 {
    if w >= 0x8000_0000_0000_0000 {
        (w - 0x1_0000_0000_0000_0000) as i64
    } else {
        w as i64
    }
}

/// The machine words that `b` holds one after another; bytes left over at
/// the end are not looked at.
pub open spec fn words_of(b: Seq<u8>) -> Seq<u64> {
    Seq::new((b.len() / 8) as nat, |i: int| word_at(b, 8 * i))
}

/// A 64-bit number kept as two machine words, of which the first counts
/// units of 2^32 and the second is laid over it.
pub open spec fn counter64_at(b: Seq<u8>) -> u64 {
    (word_at(b, 0) << 32) | word_at(b, 8)
}

/// The value that a tag byte and raw bytes denote, or the marker that stands
/// in its place: the marker of the tag where the tag has one, "not
/// implemented" with the tag where the syntax is known but not decoded, and
/// "undefined" where the raw bytes are too few for the syntax.
pub open spec fn decode(tag: u8, payload: Seq<u8>) -> Result<ValueView, ErrType> {
    match type_of_tag(tag) {
        Err(marker) => Err(marker),
        Ok(syntax) => match syntax {
            VarType::Null => Ok(ValueView::Null),
            VarType::BitStr => Ok(ValueView::BitStr(payload)),
            VarType::OctetStr => Ok(ValueView::OctetStr(payload)),
            VarType::Oid => Ok(ValueView::Oid(words_of(payload))),
            VarType::Float | VarType::Double => Err(ErrType::NotImplemented(tag)),
            VarType::IpAddress => if payload.len() >= 4 {
                Ok(ValueView::IpAddress(half_word_at(payload, 0)))
            } else {
                Err(ErrType::Undefined)
            },
            VarType::Counter64 | VarType::Integer64 | VarType::Unsigned64 => if payload.len()
                >= 16 {
                if syntax == VarType::Counter64 {
                    Ok(ValueView::Counter64(counter64_at(payload)))
                } else if syntax == VarType::Integer64 {
                    Ok(ValueView::Integer64(signed(counter64_at(payload))))
                } else {
                    Ok(ValueView::Unsigned64(counter64_at(payload)))
                }
            } else {
                Err(ErrType::Undefined)
            },
            _ => if payload.len() >= 8 {
                let word = word_at(payload, 0);
                if syntax == VarType::Boolean {
                    Ok(ValueView::Boolean(signed(word) > 0))
                } else if syntax == VarType::Integer {
                    Ok(ValueView::Integer(signed(word)))
                } else if syntax == VarType::TimeTicks {
                    Ok(ValueView::TimeTicks(word))
                } else if syntax == VarType::Gauge {
                    Ok(ValueView::Gauge(word))
                } else {
                    Ok(ValueView::Counter(word))
                }
            } else {
                Err(ErrType::Undefined)
            },
        },
    }
}

/// Reads the syntax that a tag byte announces.
pub fn decode_type(tag: u8) -> (res: Result<VarType, ErrType>)
    ensures
        res == type_of_tag(tag),
{
    match tag {
        0x01 => Ok(VarType::Boolean),
        0x02 => Ok(VarType::Integer),
        0x03 => Ok(VarType::BitStr),
        0x04 => Ok(VarType::OctetStr),
        0x05 => Ok(VarType::Null),
        0x06 => Ok(VarType::Oid),
        0x40 => Ok(VarType::IpAddress),
        0x41 => Ok(VarType::Counter),
        0x42 => Ok(VarType::Gauge),
        0x43 => Ok(VarType::TimeTicks),
        0x46 => Ok(VarType::Counter64),
        0x48 => Ok(VarType::Float),
        0x49 => Ok(VarType::Double),
        0x50 => Ok(VarType::Integer64),
        0x51 => Ok(VarType::Unsigned64),
        0x00 => Err(ErrType::Undefined),
        0x80 => Err(ErrType::NoSuchObject),
        0x81 => Err(ErrType::NoSuchInstance),
        0x82 => Err(ErrType::EndOfMibView),
        typ => Err(ErrType::NotImplemented(typ)),
    }
}

fn read_half_word(b: &[u8], at: usize) -> (res: u32)
    requires
        at + 4 <= b.len(),
    ensures
        res == half_word_at(b@, at as int),
{
    let mut w: u32 = b[at + 3] as u32;
    w = w * 0x100 + b[at + 2] as u32;
    w = w * 0x100 + b[at + 1] as u32;
    w = w * 0x100 + b[at] as u32;
    w
}

fn read_word(b: &[u8], at: usize) -> (res: u64)
    requires
        at + 8 <= b.len(),
    ensures
        res == word_at(b@, at as int),
{
    let mut w: u64 = b[at + 7] as u64;
    w = w * 0x100 + b[at + 6] as u64;
    w = w * 0x100 + b[at + 5] as u64;
    w = w * 0x100 + b[at + 4] as u64;
    w = w * 0x100 + b[at + 3] as u64;
    w = w * 0x100 + b[at + 2] as u64;
    w = w * 0x100 + b[at + 1] as u64;
    w = w * 0x100 + b[at] as u64;
    w
}

fn to_signed(w: u64) -> (res: i64)
    ensures
        res == signed(w),
{
    if w >= 0x8000_0000_0000_0000 {
        let low: i64 = (w - 0x8000_0000_0000_0000) as i64;
        low + i64::MIN
    } else {
        w as i64
    }
}

fn read_counter64(b: &[u8]) -> (res: u64)
    requires
        b.len() >= 16,
    ensures
        res == counter64_at(b@),
{
    let high = read_word(b, 0);
    let low = read_word(b, 8);
    (high << 32) | low
}

fn read_words(b: &[u8]) -> (res: Vec<u64>)
    ensures
        res@ == words_of(b@),
{
    let count: usize = b.len() / 8;
    let mut out: Vec<u64> = Vec::new();
    let mut i: usize = 0;
    while i < count
        invariant
            i <= count,
            count == b.len() / 8,
            out@.len() == i,
            forall|j: int| 0 <= j < i ==> out@[j] == word_at(b@, 8 * j),
        decreases count - i,
    {
        out.push(read_word(b, 8 * i));
        i += 1;
    }
    assert(out@ =~= words_of(b@));
    out
}

/// Decodes the value that a tag byte and raw bytes denote. Nothing is
/// borrowed from the raw bytes: byte strings and identifiers are copied.
pub fn decode_value(tag: u8, payload: &[u8]) -> (res: Result<Value, ErrType>)
    ensures
        match decode(tag, payload@) {
            Ok(value) => res matches Ok(v) && v@ == value,
            Err(marker) => res matches Err(m) && m == marker,
        },
{
    let syntax = match decode_type(tag) {
        Ok(syntax) => syntax,
        Err(marker) => {
            return Err(marker);
        },
    };
    match syntax {
        VarType::Null => Ok(Value::Null),
        VarType::BitStr => Ok(Value::BitStr(vstd::slice::slice_to_vec(payload))),
        VarType::OctetStr => Ok(Value::OctetStr(vstd::slice::slice_to_vec(payload))),
        VarType::Oid => {
            let words = read_words(payload);
            Ok(Value::Oid(Oid::from_slice(words.as_slice())))
        },
        VarType::IpAddress => {
            if payload.len() < 4 {
                return Err(ErrType::Undefined);
            }
            Ok(Value::IpAddress(read_half_word(payload, 0)))
        },
        VarType::Counter64 => {
            if payload.len() < 16 {
                return Err(ErrType::Undefined);
            }
            Ok(Value::Counter64(read_counter64(payload)))
        },
        VarType::Integer64 => {
            if payload.len() < 16 {
                return Err(ErrType::Undefined);
            }
            Ok(Value::Integer64(to_signed(read_counter64(payload))))
        },
        VarType::Unsigned64 => {
            if payload.len() < 16 {
                return Err(ErrType::Undefined);
            }
            Ok(Value::Unsigned64(read_counter64(payload)))
        },
        VarType::Boolean => {
            if payload.len() < 8 {
                return Err(ErrType::Undefined);
            }
            Ok(Value::Boolean(to_signed(read_word(payload, 0)) > 0))
        },
        VarType::Integer => {
            if payload.len() < 8 {
                return Err(ErrType::Undefined);
            }
            Ok(Value::Integer(to_signed(read_word(payload, 0))))
        },
        VarType::TimeTicks => {
            if payload.len() < 8 {
                return Err(ErrType::Undefined);
            }
            Ok(Value::TimeTicks(read_word(payload, 0)))
        },
        VarType::Gauge => {
            if payload.len() < 8 {
                return Err(ErrType::Undefined);
            }
            Ok(Value::Gauge(read_word(payload, 0)))
        },
        VarType::Counter => {
            if payload.len() < 8 {
                return Err(ErrType::Undefined);
            }
            Ok(Value::Counter(read_word(payload, 0)))
        },
        _ => Err(ErrType::NotImplemented(tag)),
    }
}

/// Decoding never fails on an unknown tag: whatever tag has no syntax and no
/// marker of its own is answered with "not implemented" and the tag, and the
/// marker of a tag does not depend on the raw bytes.
pub proof fn lemma_decode_markers(tag: u8, payload: Seq<u8>)
    ensures
        type_of_tag(tag) matches Err(marker) ==> decode(tag, payload) == Err::<ValueView, ErrType>(
            marker,
        ),
        tag == 0x80 ==> decode(tag, payload) == Err::<ValueView, ErrType>(ErrType::NoSuchObject),
        type_of_tag(tag) is Err && tag != 0x00 && tag != 0x80 && tag != 0x81 && tag != 0x82
            ==> decode(tag, payload) == Err::<ValueView, ErrType>(ErrType::NotImplemented(tag)),
{
}

impl VariablePtr {
    /// A variable with the given name, tag byte and raw value bytes.
    pub fn new(name: Oid, tag: u8, payload: Vec<u8>) -> (res: VariablePtr)
        ensures
            res@ == (VariableView { name: name@, tag, payload: payload@ }),
    {
        VariablePtr { name, tag, payload }
    }

    /// A copy of this variable that the caller owns.
    pub fn to_owned(&self) -> (res: Variable)
        ensures
            res@ == self@,
    {
        let payload = self.payload.clone();
        assert(payload@ =~= self.payload@);
        Variable(VariablePtr { name: self.name.clone(), tag: self.tag, payload })
    }

    pub fn get_name(&self) -> (res: Oid)
        ensures
            res@ == self@.name,
    {
        self.name.clone()
    }

    /// The tag byte of the value.
    pub fn tag(&self) -> (res: u8)
        ensures
            res == self@.tag,
    {
        self.tag
    }

    /// The raw bytes of the value.
    pub fn payload(&self) -> (res: &[u8])
        ensures
            res@ == self@.payload,
    {
        self.payload.as_slice()
    }

    /// The syntax of the value, or the marker that stands in its place.
    pub fn get_type(&self) -> (res: Result<VarType, ErrType>)
        ensures
            res == type_of_tag(self@.tag),
    {
        decode_type(self.tag)
    }

    /// The value, or the marker that stands in its place.
    pub fn get_value(&self) -> (res: Result<Value, ErrType>)
        ensures
            match decode(self@.tag, self@.payload) {
                Ok(value) => res matches Ok(v) && v@ == value,
                Err(marker) => res matches Err(m) && m == marker,
            },
    {
        decode_value(self.tag, self.payload.as_slice())
    }
}

impl core::ops::Deref for Variable {
    type Target = VariablePtr;

    fn deref(&self) -> (res: &VariablePtr)
        ensures
            res@ == self@,
    {
        &self.0
    }
}

impl Variable {
    /// Gives up the handle and returns the variable it owned.
    pub fn into_inner(self) -> (res: VariablePtr)
        ensures
            res@ == self@,
    {
        self.0
    }
}

} // verus!
