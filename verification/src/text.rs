//! The dotted decimal notation of object identifiers: its grammar as
//! functions on characters, and the functions that read and write it.

use vstd::prelude::*;
use vstd::string::*;

verus! {

/// The ASCII codes of the characters that the notation is made of.
pub const PLUS: u8 = 43;

pub const DOT: u8 = 46;

pub const DIGIT_ZERO: u8 = 48;

pub const DIGIT_NINE: u8 = 57;

pub open spec fn is_digit(c: char) -> bool {
    '0' <= c <= '9'
}

/// The number a decimal digit stands for; zero for any other character.
pub open spec fn digit_value(c: char) -> nat {
    if is_digit(c) {
        (c as int - '0' as int) as nat
    } else {
        0
    }
}

/// The character that writes `d`, a number below ten.
pub open spec fn digit_char(d: nat) -> char {
    (d + '0' as nat) as char
}

pub open spec fn all_digits(s: Seq<char>) -> bool {
    forall|i: int| 0 <= i < s.len() ==> is_digit(#[trigger] s[i])
}

/// The number written by a run of digits, most significant first.
pub open spec fn digits_value(s: Seq<char>) -> nat
    decreases s.len(),
{
    if s.len() == 0 {
        0
    } else {
        digits_value(s.drop_last()) * 10 + digit_value(s.last())
    }
}

/// One component read as a number: an optional plus sign, then at least
/// one digit, and a value that fits in 64 bits.
pub open spec fn parse_number(c: Seq<char>) -> Option<u64> {
    let d = if c.len() > 0 && c[0] == '+' {
        c.drop_first()
    } else {
        c
    };
    if d.len() > 0 && all_digits(d) && digits_value(d) <= u64::MAX {
        Some(digits_value(d) as u64)
    } else {
        None
    }
}

/// The index of the first dot of `s`, or its length where it has none.
pub open spec fn first_dot(s: Seq<char>) -> int
    decreases s.len(),
{
    if s.len() == 0 || s[0] == '.' {
        0
    } else {
        1 + first_dot(s.drop_first())
    }
}

/// The number of dots that `s` begins with.
pub open spec fn leading_dots(s: Seq<char>) -> int
    decreases s.len(),
{
    if s.len() > 0 && s[0] == '.' {
        1 + leading_dots(s.drop_first())
    } else {
        0
    }
}

/// The components of `s`, which are separated by dots, each read as a
/// number; nothing where one of them is not a number.
pub open spec fn parse_components(s: Seq<char>) -> Option<Seq<u64>>
    decreases s.len(),
{
    let end = first_dot(s);
    if 0 <= end < s.len() {
        match (parse_number(s.subrange(0, end)), parse_components(s.subrange(end + 1, s.len() as int))) {
            (Some(v), Some(rest)) => Some(seq![v] + rest),
            _ => None,
        }
    } else {
        match parse_number(s) {
            Some(v) => Some(seq![v]),
            None => None,
        }
    }
}

/// What a dotted identifier denotes. Dots at the front are passed over; if
/// nothing follows them the identifier is empty.
pub open spec fn parse_text(s: Seq<char>) -> Option<Seq<u64>> {
    let t = s.subrange(leading_dots(s), s.len() as int);
    if t.len() == 0 {
        Some(Seq::empty())
    } else {
        parse_components(t)
    }
}

/// The decimal notation of `n`, without sign or leading zeros.
pub open spec fn decimal(n: nat) -> Seq<char>
    decreases n,
{
    if n < 10 {
        seq![digit_char(n)]
    } else {
        decimal(n / 10).push(digit_char(n % 10))
    }
}

/// The dotted notation of the sub-identifiers of `o` from index `from` on.
pub open spec fn dotted_from(o: Seq<u64>, from: int) -> Seq<char>
    decreases o.len() - from,
{
    if from < 0 || from >= o.len() {
        Seq::empty()
    } else if from == o.len() - 1 {
        decimal(o[from] as nat)
    } else {
        decimal(o[from] as nat) + seq!['.'] + dotted_from(o, from + 1)
    }
}

/// The dotted notation of `o`: its sub-identifiers in decimal, with a dot
/// between any two.
pub open spec fn dotted(o: Seq<u64>) -> Seq<char> {
    dotted_from(o, 0)
}

/// The text that a run of ASCII bytes spells.
pub open spec fn ascii_text(bytes: Seq<u8>) -> Seq<char> {
    Seq::new(bytes.len(), |i: int| bytes[i] as char)
}

pub proof fn lemma_first_dot(s: Seq<char>)
    ensures
        0 <= first_dot(s) <= s.len(),
        forall|j: int| 0 <= j < first_dot(s) ==> s[j] != '.',
        first_dot(s) < s.len() ==> s[first_dot(s)] == '.',
    decreases s.len(),
{
    if s.len() == 0 || s[0] == '.' {
    } else {
        let t = s.drop_first();
        lemma_first_dot(t);
        assert forall|j: int| 0 <= j < first_dot(s) implies s[j] != '.' by {
            if j > 0 {
                assert(s[j] == t[j - 1]);
            }
        }
        assert(first_dot(s) < s.len() ==> s[first_dot(s)] == t[first_dot(t)]);
    }
}

/// The first dot is where no dot comes before and a dot, or the end, is
/// found.
pub proof fn lemma_first_dot_is(s: Seq<char>, e: int)
    requires
        0 <= e <= s.len(),
        forall|j: int| 0 <= j < e ==> s[j] != '.',
        e < s.len() ==> s[e] == '.',
    ensures
        first_dot(s) == e,
{
    lemma_first_dot(s);
}

pub proof fn lemma_leading_dots(s: Seq<char>)
    ensures
        0 <= leading_dots(s) <= s.len(),
        forall|j: int| 0 <= j < leading_dots(s) ==> s[j] == '.',
        leading_dots(s) < s.len() ==> s[leading_dots(s)] != '.',
    decreases s.len(),
{
    if s.len() > 0 && s[0] == '.' {
        let t = s.drop_first();
        lemma_leading_dots(t);
        assert forall|j: int| 0 <= j < leading_dots(s) implies s[j] == '.' by {
            if j > 0 {
                assert(s[j] == t[j - 1]);
            }
        }
        assert(leading_dots(s) < s.len() ==> s[leading_dots(s)] == t[leading_dots(t)]);
    }
}

/// A longer run of digits writes no smaller a number than any of its
/// prefixes.
pub proof fn lemma_digits_value_prefix(s: Seq<char>, k: int)
    requires
        0 <= k <= s.len(),
    ensures
        digits_value(s.subrange(0, k)) <= digits_value(s),
    decreases s.len(),
{
    if k == s.len() {
        assert(s.subrange(0, k) =~= s);
    } else {
        lemma_digits_value_prefix(s.drop_last(), k);
        assert(s.drop_last().subrange(0, k) =~= s.subrange(0, k));
    }
}

/// Reads the component that `bytes` holds from `pos` up to the next dot.
/// Gives the index at which the component ends and its value.
fn read_component(bytes: &[u8], pos: usize) -> (res: Option<(usize, u64)>)
    requires
        pos <= bytes.len(),
    ensures
        ({
            let rest = ascii_text(bytes@).subrange(pos as int, bytes.len() as int);
            let end = first_dot(rest);
            match parse_number(rest.subrange(0, end)) {
                Some(v) => res == Some(((pos + end) as usize, v)),
                None => res is None,
            }
        }),
{
    let n = bytes.len();
    let ghost rest = ascii_text(bytes@).subrange(pos as int, n as int);
    let ghost end = first_dot(rest);
    let ghost comp = rest.subrange(0, end);
    proof {
        lemma_first_dot(rest);
    }
    let mut i: usize = pos;
    if i < n && bytes[i] == PLUS {
        i += 1;
    }
    let start: usize = i;
    let ghost digits = if comp.len() > 0 && comp[0] == '+' {
        comp.drop_first()
    } else {
        comp
    };
    assert(start - pos <= end) by {
        if start > pos {
            assert(rest[0] == '+');
        }
    }
    assert(digits =~= rest.subrange(start - pos, end)) by {
        if start > pos {
            assert(rest[0] == '+');
            assert(comp[0] == rest[0]);
        } else if pos < n {
            assert(rest[0] != '+');
            if comp.len() > 0 {
                assert(comp[0] == rest[0]);
            }
        }
    }
    let mut acc: u64 = 0;
    while i < n && bytes[i] != DOT
        invariant
            pos <= start <= i <= n,
            n == bytes.len(),
            rest == ascii_text(bytes@).subrange(pos as int, n as int),
            end == first_dot(rest),
            0 <= end <= rest.len(),
            forall|j: int| 0 <= j < end ==> rest[j] != '.',
            end < rest.len() ==> rest[end] == '.',
            i - pos <= end,
            digits == rest.subrange(start - pos, end),
            all_digits(rest.subrange(start - pos, i - pos)),
            acc == digits_value(rest.subrange(start - pos, i - pos)),
            comp == rest.subrange(0, end),
            digits == if comp.len() > 0 && comp[0] == '+' {
                comp.drop_first()
            } else {
                comp
            },
        decreases n - i,
    {
        let b = bytes[i];
        assert(rest[i - pos] == b as char);
        assert(i - pos < end);
        let ghost k = i - start;
        assert(digits[k] == b as char);
        if b < DIGIT_ZERO || b > DIGIT_NINE {
            assert(!is_digit(digits[k]));
            return None;
        }
        let d: u64 = (b - DIGIT_ZERO) as u64;
        let ghost before = rest.subrange(start - pos, i - pos);
        let ghost after = rest.subrange(start - pos, i - pos + 1);
        assert(after.drop_last() =~= before);
        assert(after.last() == b as char);
        assert(digit_value(b as char) == d);
        assert(digits_value(after) == acc * 10 + d);
        if acc > (u64::MAX - d) / 10 {
            proof {
                assert(after =~= digits.subrange(0, k + 1));
                lemma_digits_value_prefix(digits, k + 1);
            }
            return None;
        }
        acc = acc * 10 + d;
        i += 1;
        assert forall|j: int| 0 <= j < after.len() implies is_digit(#[trigger] after[j]) by {
            if j < before.len() {
                assert(after[j] == before[j]);
            }
        }
    }
    assert(i - pos == end) by {
        if i < n {
            assert(rest[i - pos] == bytes[i as int] as char);
        }
    }
    assert(rest.subrange(start - pos, i - pos) =~= digits);
    if i == start {
        return None;
    }
    Some((i, acc))
}

/// Reads a dotted identifier from ASCII bytes.
pub fn read_dotted(bytes: &[u8]) -> (res: Option<Vec<u64>>)
    ensures
        match parse_text(ascii_text(bytes@)) {
            Some(o) => res matches Some(v) && v@ == o,
            None => res is None,
        },
{
    let n = bytes.len();
    let ghost text = ascii_text(bytes@);
    let mut pos: usize = 0;
    proof {
        lemma_leading_dots(text);
    }
    while pos < n && bytes[pos] == DOT
        invariant
            pos <= n,
            n == bytes.len(),
            text == ascii_text(bytes@),
            forall|j: int| 0 <= j < pos ==> text[j] == '.',
            0 <= leading_dots(text) <= text.len(),
            forall|j: int| 0 <= j < leading_dots(text) ==> text[j] == '.',
            leading_dots(text) < text.len() ==> text[leading_dots(text)] != '.',
        decreases n - pos,
    {
        assert(text[pos as int] == '.');
        pos += 1;
    }
    assert(pos == leading_dots(text)) by {
        if pos < n {
            assert(text[pos as int] == bytes[pos as int] as char);
        }
    }
    let mut out: Vec<u64> = Vec::new();
    if pos >= n {
        return Some(out);
    }
    let ghost whole = parse_components(text.subrange(pos as int, n as int));
    assert(whole == match parse_components(text.subrange(pos as int, n as int)) {
        Some(rest) => Some(out@ + rest),
        None => None,
    }) by {
        match parse_components(text.subrange(pos as int, n as int)) {
            Some(rest) => {
                assert(out@ + rest =~= rest);
            },
            None => {},
        }
    }
    loop
        invariant
            pos < n,
            n == bytes.len(),
            text == ascii_text(bytes@),
            whole == parse_text(text),
            whole == match parse_components(text.subrange(pos as int, n as int)) {
                Some(rest) => Some(out@ + rest),
                None => None,
            },
        decreases n - pos,
    {
        let ghost rest = text.subrange(pos as int, n as int);
        let ghost end = first_dot(rest);
        proof {
            lemma_first_dot(rest);
        }
        match read_component(bytes, pos) {
            None => {
                assert(end == rest.len() ==> rest.subrange(0, end) =~= rest);
                return None;
            },
            Some((stop, v)) => {
                if stop >= n {
                    assert(rest.subrange(0, end) =~= rest);
                    out.push(v);
                    assert(whole matches Some(o) && out@ =~= o);
                    return Some(out);
                }
                assert(rest.subrange(end + 1, rest.len() as int) =~= text.subrange(
                    stop + 1,
                    n as int,
                ));
                if stop + 1 >= n {
                    // A dot at the very end leaves an empty last component.
                    assert(parse_components(text.subrange(stop + 1, n as int)) is None) by {
                        let tail = text.subrange(stop + 1, n as int);
                        assert(tail.len() == 0);
                        assert(first_dot(tail) == 0);
                    }
                    return None;
                }
                let ghost old_out = out@;
                out.push(v);
                pos = stop + 1;
                assert(whole == match parse_components(text.subrange(pos as int, n as int)) {
                    Some(more) => Some(out@ + more),
                    None => None,
                }) by {
                    match parse_components(text.subrange(pos as int, n as int)) {
                        Some(more) => {
                            assert(old_out + (seq![v] + more) =~= out@ + more);
                        },
                        None => {},
                    }
                }
            },
        }
    }
}

/// The one-character text of a digit.
fn digit_str(d: u8) -> (res: &'static str)
    requires
        d < 10,
    ensures
        res@ == seq![digit_char(d as nat)],
{
    proof {
        reveal_strlit("0");
        reveal_strlit("1");
        reveal_strlit("2");
        reveal_strlit("3");
        reveal_strlit("4");
        reveal_strlit("5");
        reveal_strlit("6");
        reveal_strlit("7");
        reveal_strlit("8");
        reveal_strlit("9");
    }
    let res = match d {
        0 => "0",
        1 => "1",
        2 => "2",
        3 => "3",
        4 => "4",
        5 => "5",
        6 => "6",
        7 => "7",
        8 => "8",
        _ => "9",
    };
    assert(res@ =~= seq![digit_char(d as nat)]);
    res
}

/// Appends the decimal notation of `n` to `out`.
pub fn push_decimal(out: &mut String, n: u64)
    ensures
        final(out)@ == old(out)@ + decimal(n as nat),
    decreases n,
{
    if n >= 10 {
        push_decimal(out, n / 10);
    }
    let d: u8 = (n % 10) as u8;
    out.append(digit_str(d));
    assert(out@ =~= old(out)@ + decimal(n as nat));
}

/// Writes sub-identifiers in dotted notation.
pub fn write_dotted(o: &[u64]) -> (res: String)
    ensures
        res@ == dotted(o@),
{
    let mut out = String::new();
    let n = o.len();
    if n == 0 {
        assert(out@ =~= dotted(o@));
        return out;
    }
    push_decimal(&mut out, o[0]);
    let mut i: usize = 1;
    proof {
        reveal_strlit(".");
        assert(out@ =~= decimal(o@[0] as nat));
    }
    while i < n
        invariant
            1 <= i <= n,
            n == o@.len(),
            "."@ == seq!['.'],
            dotted(o@) == out@ + (if i < n {
                seq!['.'] + dotted_from(o@, i as int)
            } else {
                Seq::empty()
            }),
        decreases n - i,
    {
        let ghost before = out@;
        out.append(".");
        push_decimal(&mut out, o[i]);
        i += 1;
        proof {
            let item = decimal(o@[i - 1] as nat);
            assert(out@ == before + seq!['.'] + item);
            if i < n {
                assert(dotted_from(o@, i - 1) == item + seq!['.'] + dotted_from(o@, i as int));
                assert(before + (seq!['.'] + (item + seq!['.'] + dotted_from(o@, i as int))) =~= out@
                    + (seq!['.'] + dotted_from(o@, i as int)));
            } else {
                assert(dotted_from(o@, i - 1) == item);
                assert(before + (seq!['.'] + item) =~= out@ + Seq::<char>::empty());
            }
        }
    }
    assert(out@ + Seq::<char>::empty() =~= out@);
    out
}

/// A component that reads as a number holds a plus sign and digits only.
pub proof fn lemma_number_is_ascii(c: Seq<char>)
    requires
        parse_number(c) is Some,
    ensures
        forall|i: int| 0 <= i < c.len() ==> '\0' <= #[trigger] c[i] <= '\u{7f}',
{
    let d = if c.len() > 0 && c[0] == '+' {
        c.drop_first()
    } else {
        c
    };
    assert forall|i: int| 0 <= i < c.len() implies '\0' <= #[trigger] c[i] <= '\u{7f}' by {
        if c[0] == '+' {
            if i > 0 {
                assert(c[i] == d[i - 1]);
            }
        } else {
            assert(c[i] == d[i]);
        }
    }
}

pub proof fn lemma_components_are_ascii(s: Seq<char>)
    requires
        parse_components(s) is Some,
    ensures
        forall|i: int| 0 <= i < s.len() ==> '\0' <= #[trigger] s[i] <= '\u{7f}',
    decreases s.len(),
{
    let end = first_dot(s);
    lemma_first_dot(s);
    if end < s.len() {
        let comp = s.subrange(0, end);
        let tail = s.subrange(end + 1, s.len() as int);
        lemma_number_is_ascii(comp);
        lemma_components_are_ascii(tail);
        assert forall|i: int| 0 <= i < s.len() implies '\0' <= #[trigger] s[i] <= '\u{7f}' by {
            if i < end {
                assert(s[i] == comp[i]);
            } else if i > end {
                assert(s[i] == tail[i - end - 1]);
            }
        }
    } else {
        lemma_number_is_ascii(s);
    }
}

/// Text that denotes an identifier is made of dots, digits and plus signs,
/// all of which are ASCII.
pub proof fn lemma_parsed_text_is_ascii(s: Seq<char>)
    requires
        parse_text(s) is Some,
    ensures
        vstd::utf8::is_ascii_chars(s),
{
    lemma_leading_dots(s);
    let k = leading_dots(s);
    let t = s.subrange(k, s.len() as int);
    if t.len() > 0 {
        lemma_components_are_ascii(t);
    }
    assert forall|i: int| 0 <= i < s.len() implies '\0' <= #[trigger] s[i] <= '\u{7f}' by {
        if i >= k {
            assert(s[i] == t[i - k]);
        }
    }
}

/// A number written the one way `decimal` writes it: digits only, and no
/// zero in front of another digit.
pub open spec fn canonical_number(c: Seq<char>) -> bool {
    &&& c.len() > 0
    &&& all_digits(c)
    &&& c.len() == 1 || c[0] != '0'
}

/// Every component of `s` is a canonical number.
pub open spec fn canonical_components(s: Seq<char>) -> bool
    decreases s.len(),
{
    let end = first_dot(s);
    if 0 <= end < s.len() {
        canonical_number(s.subrange(0, end)) && canonical_components(
            s.subrange(end + 1, s.len() as int),
        )
    } else {
        canonical_number(s)
    }
}

/// Dotted notation as `dotted` writes it: empty, or canonical numbers with
/// single dots between them and none at either end.
pub open spec fn canonical(s: Seq<char>) -> bool {
    s.len() == 0 || canonical_components(s)
}

/// `decimal` writes digits only, the number it was given, and no zero in
/// front.
pub proof fn lemma_decimal(n: nat)
    ensures
        decimal(n).len() > 0,
        all_digits(decimal(n)),
        digits_value(decimal(n)) == n,
        n > 0 ==> decimal(n)[0] != '0',
        canonical_number(decimal(n)),
    decreases n,
{
    if n < 10 {
        let s = decimal(n);
        assert(s.drop_last() =~= Seq::<char>::empty());
        assert(digits_value(s.drop_last()) == 0);
        assert(s.last() == digit_char(n));
    } else {
        lemma_decimal(n / 10);
        let head = decimal(n / 10);
        let s = decimal(n);
        assert(s.drop_last() =~= head);
        assert(s.last() == digit_char(n % 10));
        assert(s[0] == head[0]);
        assert forall|i: int| 0 <= i < s.len() implies is_digit(#[trigger] s[i]) by {
            if i < head.len() {
                assert(s[i] == head[i]);
            }
        }
    }
}

/// Reading what `decimal` wrote gives the number back.
pub proof fn lemma_parse_number_of_decimal(v: u64)
    ensures
        parse_number(decimal(v as nat)) == Some(v),
{
    lemma_decimal(v as nat);
}

/// A canonical number is the decimal notation of its value.
pub proof fn lemma_decimal_of_canonical(c: Seq<char>)
    requires
        canonical_number(c),
    ensures
        decimal(digits_value(c)) == c,
    decreases c.len(),
{
    let head = c.drop_last();
    if c.len() == 1 {
        assert(head =~= Seq::<char>::empty());
        assert(digits_value(head) == 0);
        assert(decimal(digits_value(c)) =~= c);
    } else {
        assert(head[0] == c[0]);
        assert forall|i: int| 0 <= i < head.len() implies is_digit(#[trigger] head[i]) by {
            assert(head[i] == c[i]);
        }
        lemma_decimal_of_canonical(head);
        lemma_digits_value_prefix(head, 1);
        let first = head.subrange(0, 1);
        assert(first.drop_last() =~= Seq::<char>::empty());
        assert(digits_value(first.drop_last()) == 0);
        assert(first.last() == c[0]);
        assert(digits_value(head) >= 1);
        let v = digits_value(c);
        assert(v == digits_value(head) * 10 + digit_value(c.last()));
        assert(v / 10 == digits_value(head));
        assert(v % 10 == digit_value(c.last()));
        assert(decimal(v) =~= c);
    }
}

proof fn lemma_parse_dotted_from(o: Seq<u64>, from: int)
    requires
        0 <= from < o.len(),
    ensures
        parse_components(dotted_from(o, from)) == Some(o.subrange(from, o.len() as int)),
        canonical_components(dotted_from(o, from)),
        dotted_from(o, from).len() > 0,
        is_digit(dotted_from(o, from)[0]),
    decreases o.len() - from,
{
    let s = dotted_from(o, from);
    let item = decimal(o[from] as nat);
    lemma_decimal(o[from] as nat);
    lemma_parse_number_of_decimal(o[from]);
    if from == o.len() - 1 {
        lemma_first_dot_is(s, s.len() as int);
        assert(seq![o[from]] =~= o.subrange(from, o.len() as int));
    } else {
        let rest = dotted_from(o, from + 1);
        lemma_parse_dotted_from(o, from + 1);
        assert(s == item + seq!['.'] + rest);
        assert forall|j: int| 0 <= j < item.len() implies s[j] != '.' by {
            assert(s[j] == item[j]);
        }
        assert(s[item.len() as int] == '.');
        lemma_first_dot_is(s, item.len() as int);
        assert(s.subrange(0, item.len() as int) =~= item);
        assert(s.subrange(item.len() as int + 1, s.len() as int) =~= rest);
        assert(seq![o[from]] + o.subrange(from + 1, o.len() as int) =~= o.subrange(
            from,
            o.len() as int,
        ));
        assert(s[0] == item[0]);
    }
}

/// Reading the dotted notation of an identifier gives the identifier back,
/// and that notation is canonical.
pub proof fn lemma_parse_of_dotted(o: Seq<u64>)
    ensures
        parse_text(dotted(o)) == Some(o),
        canonical(dotted(o)),
{
    let s = dotted(o);
    lemma_leading_dots(s);
    if o.len() == 0 {
        assert(s.subrange(0, 0) =~= Seq::<char>::empty());
        assert(o =~= Seq::<u64>::empty());
    } else {
        lemma_parse_dotted_from(o, 0);
        assert(leading_dots(s) == 0);
        assert(s.subrange(0, s.len() as int) =~= s);
        assert(o.subrange(0, o.len() as int) =~= o);
    }
}

proof fn lemma_dotted_from_shift(v: u64, rest: Seq<u64>, k: int)
    requires
        0 <= k <= rest.len(),
    ensures
        dotted_from(seq![v] + rest, k + 1) == dotted_from(rest, k),
    decreases rest.len() - k,
{
    let o = seq![v] + rest;
    if k < rest.len() {
        assert(o[k + 1] == rest[k]);
        if k < rest.len() - 1 {
            lemma_dotted_from_shift(v, rest, k + 1);
        }
    }
}

proof fn lemma_dotted_of_components(s: Seq<char>, o: Seq<u64>)
    requires
        canonical_components(s),
        parse_components(s) == Some(o),
    ensures
        o.len() > 0,
        dotted_from(o, 0) == s,
    decreases s.len(),
{
    let end = first_dot(s);
    lemma_first_dot(s);
    if end < s.len() {
        let comp = s.subrange(0, end);
        let tail = s.subrange(end + 1, s.len() as int);
        let v = parse_number(comp).unwrap();
        let rest = parse_components(tail).unwrap();
        assert(o == seq![v] + rest);
        lemma_dotted_of_components(tail, rest);
        lemma_decimal_of_canonical(comp);
        lemma_dotted_from_shift(v, rest, 0);
        assert(o[0] == v);
        assert(dotted_from(o, 0) == decimal(v as nat) + seq!['.'] + dotted_from(o, 1));
        assert(comp + seq!['.'] + tail =~= s);
    } else {
        lemma_decimal_of_canonical(s);
        let v = parse_number(s).unwrap();
        assert(o == seq![v]);
        assert(o[0] == v);
    }
}

/// Writing the identifier that canonical text denotes gives the text back.
pub proof fn lemma_dotted_of_parsed(s: Seq<char>, o: Seq<u64>)
    requires
        canonical(s),
        parse_text(s) == Some(o),
    ensures
        dotted(o) == s,
{
    lemma_leading_dots(s);
    if s.len() == 0 {
        assert(s.subrange(0, 0) =~= Seq::<char>::empty());
        assert(dotted(o) =~= s);
    } else {
        let end = first_dot(s);
        lemma_first_dot(s);
        if end < s.len() {
            assert(s.subrange(0, end)[0] == s[0]);
        }
        assert(is_digit(s[0]));
        assert(leading_dots(s) == 0);
        assert(s.subrange(0, s.len() as int) =~= s);
        lemma_dotted_of_components(s, o);
    }
}

} // verus!
