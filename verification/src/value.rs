use crate::oid::Oid;
use vstd::prelude::*;

verus! {

/// A decoded bound value.
#[derive(Debug, Clone)]
pub enum Value {
    Boolean(bool),
    Integer(i64),
    BitStr(Vec<u8>),
    OctetStr(Vec<u8>),
    Null,
    Oid(Oid),
    Sequence,
    SetOf,
    IpAddress(u32),
    MacAddress(u64),
    Counter(u64),
    Gauge(u64),
    TimeTicks(u64),
    Opaque,
    Counter64(u64),
    /// A single-precision number, by its bit pattern.
    Float(u32),
    /// A double-precision number, by its bit pattern.
    Double(u64),
    Integer64(i64),
    Unsigned64(u64),
}

/// What a `Value` holds, as mathematics.
pub enum ValueView {
    Boolean(bool),
    Integer(i64),
    BitStr(Seq<u8>),
    OctetStr(Seq<u8>),
    Null,
    Oid(Seq<u64>),
    Sequence,
    SetOf,
    IpAddress(u32),
    MacAddress(u64),
    Counter(u64),
    Gauge(u64),
    TimeTicks(u64),
    Opaque,
    Counter64(u64),
    Float(u32),
    Double(u64),
    Integer64(i64),
    Unsigned64(u64),
}

impl View for Value {
    type V = ValueView;

    open spec fn view(&self) -> ValueView {
        match self {
            Value::Boolean(b) => ValueView::Boolean(*b),
            Value::Integer(i) => ValueView::Integer(*i),
            Value::BitStr(v) => ValueView::BitStr(v@),
            Value::OctetStr(v) => ValueView::OctetStr(v@),
            Value::Null => ValueView::Null,
            Value::Oid(o) => ValueView::Oid(o@),
            Value::Sequence => ValueView::Sequence,
            Value::SetOf => ValueView::SetOf,
            Value::IpAddress(a) => ValueView::IpAddress(*a),
            Value::MacAddress(a) => ValueView::MacAddress(*a),
            Value::Counter(c) => ValueView::Counter(*c),
            Value::Gauge(g) => ValueView::Gauge(*g),
            Value::TimeTicks(t) => ValueView::TimeTicks(*t),
            Value::Opaque => ValueView::Opaque,
            Value::Counter64(c) => ValueView::Counter64(*c),
            Value::Float(f) => ValueView::Float(*f),
            Value::Double(d) => ValueView::Double(*d),
            Value::Integer64(i) => ValueView::Integer64(*i),
            Value::Unsigned64(u) => ValueView::Unsigned64(*u),
        }
    }
}

/// Whether two byte strings hold the same bytes.
pub fn bytes_equal(a: &Vec<u8>, b: &Vec<u8>) -> (res: bool)
    ensures
        res == (a@ == b@),
{
    if a.len() != b.len() {
        return false;
    }
    let mut i: usize = 0;
    while i < a.len()
        invariant
            i <= a.len(),
            a.len() == b.len(),
            forall|j: int| 0 <= j < i ==> a@[j] == b@[j],
        decreases a.len() - i,
    {
        if a[i] != b[i] {
            return false;
        }
        i += 1;
    }
    assert(a@ =~= b@);
    true
}

impl PartialEq for Value {
    fn eq(&self, other: &Value) -> (res: bool) {
        match (self, other) {
            (Value::Boolean(a), Value::Boolean(b)) => *a == *b,
            (Value::Integer(a), Value::Integer(b)) => *a == *b,
            (Value::BitStr(a), Value::BitStr(b)) => bytes_equal(a, b),
            (Value::OctetStr(a), Value::OctetStr(b)) => bytes_equal(a, b),
            (Value::Null, Value::Null) => true,
            (Value::Oid(a), Value::Oid(b)) => *a == *b,
            (Value::Sequence, Value::Sequence) => true,
            (Value::SetOf, Value::SetOf) => true,
            (Value::IpAddress(a), Value::IpAddress(b)) => *a == *b,
            (Value::MacAddress(a), Value::MacAddress(b)) => *a == *b,
            (Value::Counter(a), Value::Counter(b)) => *a == *b,
            (Value::Gauge(a), Value::Gauge(b)) => *a == *b,
            (Value::TimeTicks(a), Value::TimeTicks(b)) => *a == *b,
            (Value::Opaque, Value::Opaque) => true,
            (Value::Counter64(a), Value::Counter64(b)) => *a == *b,
            (Value::Float(a), Value::Float(b)) => *a == *b,
            (Value::Double(a), Value::Double(b)) => *a == *b,
            (Value::Integer64(a), Value::Integer64(b)) => *a == *b,
            (Value::Unsigned64(a), Value::Unsigned64(b)) => *a == *b,
            _ => false,
        }
    }
}

impl vstd::std_specs::cmp::PartialEqSpecImpl for Value {
    open spec fn obeys_eq_spec() -> bool {
        true
    }

    open spec fn eq_spec(&self, other: &Value) -> bool {
        self@ == other@
    }
}

} // verus!
