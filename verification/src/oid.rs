use core::cmp::Ordering;
use crate::error::Error;
use crate::text::ascii_text;
use crate::text::dotted;
use crate::text::lemma_parsed_text_is_ascii;
use crate::text::parse_text;
use crate::text::read_dotted;
use crate::text::write_dotted;
use vstd::prelude::*;
use vstd::std_specs::cmp::PartialOrdSpec;

verus! {

/// An object identifier: a sequence of unsigned sub-identifiers, ordered
/// lexicographically.
#[derive(Debug, Eq, Ord, Hash)]
pub struct Oid(Vec<u64>);

impl View for Oid {
    type V = Seq<u64>;

    closed spec fn view(&self) -> Seq<u64> {
        self.0@
    }
}

/// What is left of `oid` once the first `skip` sub-identifiers are dropped;
/// nothing when `oid` is no longer than that.
pub open spec fn tail_from(oid: Seq<u64>, skip: nat) -> Seq<u64> {
    if skip <= oid.len() {
        oid.subrange(skip as int, oid.len() as int)
    } else {
        Seq::empty()
    }
}

/// `a` and `b` agree on their first `k` sub-identifiers, and there `a`
/// either ends while `b` goes on, or holds the smaller sub-identifier.
pub open spec fn less_at(a: Seq<u64>, b: Seq<u64>, k: int) -> bool {
    &&& 0 <= k <= a.len()
    &&& k < b.len()
    &&& forall|j: int| 0 <= j < k ==> a[j] == b[j]
    &&& k < a.len() ==> a[k] < b[k]
}

/// Lexicographic order on sequences of sub-identifiers.
pub open spec fn lex_less(a: Seq<u64>, b: Seq<u64>) -> bool {
    exists|k: int| less_at(a, b, k)
}

impl PartialEq for Oid {
    fn eq(&self, other: &Oid) -> (res: bool) {
        if self.0.len() != other.0.len() {
            return false;
        }
        let mut i: usize = 0;
        while i < self.0.len()
            invariant
                i <= self.0.len(),
                self.0.len() == other.0.len(),
                forall|j: int| 0 <= j < i ==> self.0@[j] == other.0@[j],
            decreases self.0.len() - i,
        {
            if self.0[i] != other.0[i] {
                return false;
            }
            i += 1;
        }
        assert(self.0@ =~= other.0@);
        true
    }
}

impl vstd::std_specs::cmp::PartialEqSpecImpl for Oid {
    open spec fn obeys_eq_spec() -> bool {
        true
    }

    open spec fn eq_spec(&self, other: &Oid) -> bool {
        self@ == other@
    }
}

/// Compares two runs of sub-identifiers: -1 where `a` is below `b`, 0 where
/// they are equal, 1 where `a` is above `b`.
fn lex_order(a: &Vec<u64>, b: &Vec<u64>) -> (res: i8)
    ensures
        res == -1 || res == 0 || res == 1,
        res == -1 <==> lex_less(a@, b@),
        res == 0 <==> a@ == b@,
        res == 1 <==> lex_less(b@, a@),
{
    let mut i: usize = 0;
    while i < a.len() && i < b.len()
        invariant
            i <= a.len(),
            i <= b.len(),
            forall|j: int| 0 <= j < i ==> a@[j] == b@[j],
        decreases a.len() - i,
    {
        if a[i] < b[i] {
            proof {
                assert(less_at(a@, b@, i as int));
                lemma_lex_less_asymmetric(a@, b@);
            }
            return -1;
        }
        if a[i] > b[i] {
            proof {
                assert(less_at(b@, a@, i as int));
                lemma_lex_less_asymmetric(b@, a@);
            }
            return 1;
        }
        i += 1;
    }
    if a.len() < b.len() {
        proof {
            assert(less_at(a@, b@, i as int));
            lemma_lex_less_asymmetric(a@, b@);
        }
        -1
    } else if a.len() > b.len() {
        proof {
            assert(less_at(b@, a@, i as int));
            lemma_lex_less_asymmetric(b@, a@);
        }
        1
    } else {
        proof {
            assert(a@ =~= b@);
            if lex_less(a@, b@) {
                lemma_lex_less_asymmetric(a@, b@);
            }
        }
        0
    }
}

impl PartialOrd for Oid {
    fn partial_cmp(&self, other: &Oid) -> (res: Option<Ordering>) {
        let order = lex_order(&self.0, &other.0);
        if order < 0 {
            Some(Ordering::Less)
        } else if order == 0 {
            Some(Ordering::Equal)
        } else {
            Some(Ordering::Greater)
        }
    }
}

impl vstd::std_specs::cmp::PartialOrdSpecImpl for Oid {
    open spec fn obeys_partial_cmp_spec() -> bool {
        true
    }

    open spec fn partial_cmp_spec(&self, other: &Oid) -> Option<Ordering> {
        if self@ == other@ {
            Some(Ordering::Equal)
        } else if lex_less(self@, other@) {
            Some(Ordering::Less)
        } else {
            Some(Ordering::Greater)
        }
    }
}

/// No sequence is below itself, and of two sequences at most one is below
/// the other.
pub proof fn lemma_lex_less_asymmetric(a: Seq<u64>, b: Seq<u64>)
    requires
        lex_less(a, b),
    ensures
        a != b,
        !lex_less(b, a),
{
    let k = choose|k: int| less_at(a, b, k);
    if lex_less(b, a) {
        let m = choose|m: int| less_at(b, a, m);
        if k < m {
            assert(b[k] == a[k]);
        } else if m < k {
            assert(a[m] == b[m]);
        }
    }
    if a == b {
        assert(k < a.len());
    }
}

/// Of two different sequences one is below the other: with
/// `lemma_lex_less_asymmetric` and `lemma_lex_less_transitive`, the order is
/// total.
pub proof fn lemma_lex_less_total(a: Seq<u64>, b: Seq<u64>)
    ensures
        a == b || lex_less(a, b) || lex_less(b, a),
{
    let k = first_difference(a, b, 0);
    lemma_first_difference(a, b, 0);
    if k == a.len() && k == b.len() {
        assert(a =~= b);
    } else if k == a.len() {
        assert(less_at(a, b, k));
    } else if k == b.len() {
        assert(less_at(b, a, k));
    } else if a[k] < b[k] {
        assert(less_at(a, b, k));
    } else {
        assert(less_at(b, a, k));
    }
}

/// The first index from `from` on at which `a` and `b` differ or one of
/// them ends.
pub open spec fn first_difference(a: Seq<u64>, b: Seq<u64>, from: int) -> int
    decreases a.len() - from,
{
    if 0 <= from < a.len() && from < b.len() && a[from] == b[from] {
        first_difference(a, b, from + 1)
    } else {
        from
    }
}

proof fn lemma_first_difference(a: Seq<u64>, b: Seq<u64>, from: int)
    requires
        0 <= from <= a.len(),
        from <= b.len(),
    ensures
        from <= first_difference(a, b, from) <= a.len(),
        first_difference(a, b, from) <= b.len(),
        forall|j: int| from <= j < first_difference(a, b, from) ==> a[j] == b[j],
        first_difference(a, b, from) < a.len() && first_difference(a, b, from) < b.len() ==> a[first_difference(
            a,
            b,
            from,
        )] != b[first_difference(a, b, from)],
    decreases a.len() - from,
{
    if from < a.len() && from < b.len() && a[from] == b[from] {
        lemma_first_difference(a, b, from + 1);
    }
}

/// The order is transitive.
pub proof fn lemma_lex_less_transitive(a: Seq<u64>, b: Seq<u64>, c: Seq<u64>)
    requires
        lex_less(a, b),
        lex_less(b, c),
    ensures
        lex_less(a, c),
{
    let k = choose|k: int| less_at(a, b, k);
    let m = choose|m: int| less_at(b, c, m);
    if k <= m {
        assert(less_at(a, c, k));
    } else {
        assert(less_at(a, c, m));
    }
}

/// The order of identifiers read from text is the lexicographic order of
/// the numbers that the components of the texts denote: `x` is below `y`
/// exactly if the first is below the second there, equal exactly if they
/// are equal, and above otherwise.
pub proof fn lemma_order_of_parsed(a: Seq<char>, b: Seq<char>, x: Oid, y: Oid)
    requires
        parse_text(a) == Some(x@),
        parse_text(b) == Some(y@),
    ensures
        x.partial_cmp_spec(&y) == Some(Ordering::Less) <==> lex_less(
            parse_text(a).unwrap(),
            parse_text(b).unwrap(),
        ),
        x.partial_cmp_spec(&y) == Some(Ordering::Equal) <==> parse_text(a) == parse_text(b),
        x.partial_cmp_spec(&y) == Some(Ordering::Greater) <==> lex_less(
            parse_text(b).unwrap(),
            parse_text(a).unwrap(),
        ),
{
    lemma_lex_less_total(x@, y@);
    if lex_less(x@, y@) {
        lemma_lex_less_asymmetric(x@, y@);
    }
    if lex_less(y@, x@) {
        lemma_lex_less_asymmetric(y@, x@);
    }
}

/// An identifier contains whatever is joined to it, and the index of the
/// joined identifier below it is exactly what was joined.
pub proof fn lemma_join_contains(p: Seq<u64>, x: Seq<u64>)
    ensures
        p.is_prefix_of(p + x),
        tail_from(p + x, p.len()) == x,
{
    assert((p + x).subrange(0, p.len() as int) =~= p);
    assert((p + x).subrange(p.len() as int, (p + x).len() as int) =~= x);
}

/// Joining something non-empty to an identifier gives one above it.
pub proof fn lemma_join_is_above(p: Seq<u64>, x: Seq<u64>)
    requires
        x.len() > 0,
    ensures
        lex_less(p, p + x),
{
    assert(less_at(p, p + x, p.len() as int));
}

impl core::str::FromStr for Oid {
    type Err = Error;

    fn from_str(value: &str) -> (res: Result<Oid, Error>)
        ensures
            match parse_text(value@) {
                Some(o) => res matches Ok(oid) && oid@ == o,
                None => res matches Err(Error::OidParseError),
            },
    {
        Oid::from_str(value)
    }
}

impl Clone for Oid {
    fn clone(&self) -> (res: Self)
        ensures
            res@ == self@,
    {
        let v = self.0.clone();
        assert(v@ =~= self.0@);
        Oid(v)
    }
}

impl Oid {
    /// The identifier with no sub-identifiers.
    pub fn empty() -> (res: Self)
        ensures
            res@ == Seq::<u64>::empty(),
    {
        Oid(Vec::new())
    }

    pub fn from_slice(slice: &[u64]) -> (res: Self)
        ensures
            res@ == slice@,
    {
        Oid(vstd::slice::slice_to_vec(slice))
    }

    pub fn as_slice(&self) -> (res: &[u64])
        ensures
            res@ == self@,
    {
        self.0.as_slice()
    }

    pub fn is_empty(&self) -> (res: bool)
        ensures
            res == (self@.len() == 0),
    {
        self.0.len() == 0
    }

    pub fn len(&self) -> (res: usize)
        ensures
            res == self@.len(),
    {
        self.0.len()
    }

    /// Reads dotted decimal notation, such as `1.3.6.1`. Dots at the front
    /// are passed over; every component after them has to be a number that
    /// fits in 64 bits.
    pub fn from_str(value: &str) -> (res: Result<Oid, Error>)
        ensures
            match parse_text(value@) {
                Some(o) => res matches Ok(oid) && oid@ == o,
                None => res matches Err(Error::OidParseError),
            },
    {
        if !value.is_ascii() {
            proof {
                if parse_text(value@) is Some {
                    lemma_parsed_text_is_ascii(value@);
                }
            }
            return Err(Error::OidParseError);
        }
        let bytes = value.as_bytes();
        proof {
            vstd::string::is_ascii_spec_bytes(value);
            assert(ascii_text(bytes@) =~= value@);
        }
        match read_dotted(bytes) {
            Some(v) => Ok(Oid(v)),
            None => Err(Error::OidParseError),
        }
    }

    /// Dotted decimal notation: the sub-identifiers in decimal with a dot
    /// between any two, and nothing for the empty identifier.
    pub fn to_string(&self) -> (res: String)
        ensures
            res@ == dotted(self@),
    {
        write_dotted(self.0.as_slice())
    }

    /// The index of this identifier below `table`: what follows the first
    /// `table.len()` sub-identifiers. Whether `table` really is a prefix is
    /// not looked at.
    pub fn in_table(&self, table: &Oid) -> (res: Oid)
        ensures
            res@ == tail_from(self@, table@.len()),
    {
        let mut out: Vec<u64> = Vec::new();
        let mut i: usize = table.0.len();
        if i > self.0.len() {
            return Oid(out);
        }
        let ghost start = i as int;
        while i < self.0.len()
            invariant
                0 <= start <= i <= self.0.len(),
                out@ == self.0@.subrange(start, i as int),
            decreases self.0.len() - i,
        {
            out.push(self.0[i]);
            i += 1;
            assert(out@ =~= self.0@.subrange(start, i as int));
        }
        Oid(out)
    }

    /// This identifier followed by the sub-identifiers of `oid`.
    pub fn join(&self, oid: &[u64]) -> (res: Oid)
        ensures
            res@ == self@ + oid@,
    {
        let mut new = self.clone();
        new.extend(oid);
        new
    }

    /// Appends the sub-identifiers of `items` in order.
    pub fn extend(&mut self, items: &[u64])
        ensures
            final(self)@ == old(self)@ + items@,
    {
        let mut i: usize = 0;
        while i < items.len()
            invariant
                i <= items.len(),
                self.0@ == old(self).0@ + items@.subrange(0, i as int),
            decreases items.len() - i,
        {
            self.0.push(items[i]);
            i += 1;
        }
        assert(items@.subrange(0, items.len() as int) == items@);
    }

    /// Whether this identifier is a prefix of `oid` (every identifier
    /// contains itself).
    pub fn contains(&self, oid: &Oid) -> (res: bool)
        ensures
            res == self@.is_prefix_of(oid@),
    {
        if oid.0.len() < self.0.len() {
            return false;
        }
        let mut i: usize = 0;
        while i < self.0.len()
            invariant
                i <= self.0.len() <= oid.0.len(),
                forall|j: int| 0 <= j < i ==> self.0@[j] == oid.0@[j],
            decreases self.0.len() - i,
        {
            if self.0[i] != oid.0[i] {
                return false;
            }
            i += 1;
        }
        true
    }
}

} // verus!
