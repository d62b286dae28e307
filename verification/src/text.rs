//! Character-level helpers shared by the parsers and the formatters.
use vstd::prelude::*;

verus! {

broadcast use vstd::string::group_string_axioms;

/// `String::push`: appends one character at the end of the string.
#[verifier::external_body]
pub(crate) fn push_char(s: &mut String, c: char)
    ensures
        final(s)@ == old(s)@.push(c),
{
    s.push(c)
}

/// The characters of a string slice, in order.
pub fn chars_of(s: &str) -> (r: Vec<char>)
    ensures
        r@ == s@,
{
    let mut v: Vec<char> = Vec::new();
    for c in iter: s.chars()
        invariant
            v@ == iter.seq().take(iter.index() as int),
            iter.seq() == s@,
    {
        v.push(c);
    }
    v
}

/// Appends the characters `v[from..to]` to `s`.
pub fn push_range(s: &mut String, v: &Vec<char>, from: usize, to: usize)
    requires
        from <= to <= v@.len(),
    ensures
        final(s)@ == old(s)@ + v@.subrange(from as int, to as int),
{
    let mut i: usize = from;
    while i < to
        invariant
            from <= i <= to <= v@.len(),
            s@ == old(s)@ + v@.subrange(from as int, i as int),
        decreases to - i,
    {
        push_char(s, v[i]);
        assert(v@.subrange(from as int, i + 1) =~= v@.subrange(from as int, i as int).push(v@[i as int]));
        i += 1;
    }
}

/// A new string made of `v[from..to]`.
pub fn string_of_range(v: &Vec<char>, from: usize, to: usize) -> (r: String)
    requires
        from <= to <= v@.len(),
    ensures
        r@ == v@.subrange(from as int, to as int),
{
    let mut s = String::new();
    push_range(&mut s, v, from, to);
    s
}

/// A new string holding the characters of `v`.
pub fn string_of_chars(v: &Vec<char>) -> (r: String)
    ensures
        r@ == v@,
{
    let r = string_of_range(v, 0, v.len());
    assert(v@.subrange(0, v@.len() as int) =~= v@);
    r
}

/// Does `p` occur in `v` at position `at`?
pub fn starts_with_at(v: &Vec<char>, at: usize, p: &Vec<char>) -> (r: bool)
    ensures
        r == (at <= v@.len() && p@.is_prefix_of(v@.skip(at as int))),
{
    if at > v.len() || p.len() > v.len() - at {
        return false;
    }
    let mut i: usize = 0;
    while i < p.len()
        invariant
            at + p@.len() <= v.len(),
            i <= p@.len(),
            forall|j: int| 0 <= j < i ==> p@[j] == v@[at + j],
        decreases p@.len() - i,
    {
        if p[i] != v[at + i] {
            assert(v@.skip(at as int)[i as int] == v@[at + i]);
            return false;
        }
        i += 1;
    }
    assert(p@ =~= v@.skip(at as int).subrange(0, p@.len() as int));
    true
}

/// Do `v` and `p` hold the same characters?
pub fn chars_eq(v: &Vec<char>, p: &Vec<char>) -> (r: bool)
    ensures
        r == (v@ == p@),
{
    if v.len() != p.len() {
        return false;
    }
    let r = starts_with_at(v, 0, p);
    assert(v@.skip(0) =~= v@);
    if r {
        assert(v@ =~= p@);
    }
    r
}

/// Does the string slice `s` begin with `p`?
pub fn str_starts_with(s: &str, p: &str) -> (r: bool)
    ensures
        r == p@.is_prefix_of(s@),
{
    let v = chars_of(s);
    let q = chars_of(p);
    let r = starts_with_at(&v, 0, &q);
    assert(v@.skip(0) =~= v@);
    r
}

/// Are the string slices `s` and `p` equal?
pub fn str_eq(s: &str, p: &str) -> (r: bool)
    ensures
        r == (s@ == p@),
{
    let v = chars_of(s);
    let q = chars_of(p);
    chars_eq(&v, &q)
}

/// The index of the first `c` in `v` at or after `from`.
pub fn find_char_from(v: &Vec<char>, from: usize, c: char) -> (r: Option<usize>)
    requires
        from <= v@.len(),
    ensures
        match r {
            Some(i) => from <= i < v@.len() && v@[i as int] == c && forall|j: int|
                from <= j < i ==> v@[j] != c,
            None => forall|j: int| from <= j < v@.len() ==> v@[j] != c,
        },
{
    let mut i: usize = from;
    while i < v.len()
        invariant
            from <= i <= v@.len(),
            forall|j: int| from <= j < i ==> v@[j] != c,
        decreases v@.len() - i,
    {
        if v[i] == c {
            return Some(i);
        }
        i += 1;
    }
    None
}

/// The character of a decimal digit.
pub open spec fn digit_char(d: nat) -> char {
    (48 + d) as char
}

/// The decimal writing of a natural number, without leading zeros.
pub open spec fn decimal(n: nat) -> Seq<char>
    decreases n,
{
    if n < 10 {
        seq![digit_char(n)]
    } else {
        decimal(n / 10).push(digit_char(n % 10))
    }
}

/// Appends the decimal writing of `n` to `s`.
pub fn push_decimal(s: &mut String, n: u64)
    ensures
        final(s)@ == old(s)@ + decimal(n as nat),
    decreases n,
{
    if n >= 10 {
        push_decimal(s, n / 10);
    }
    let d: u8 = (n % 10) as u8;
    push_char(s, (48u8 + d) as char);
    assert(s@ =~= old(s)@ + decimal(n as nat));
}

/// The decimal writing of `n`.
pub fn u64_to_string(n: u64) -> (r: String)
    ensures
        r@ == decimal(n as nat),
{
    let mut s = String::new();
    push_decimal(&mut s, n);
    assert(s@ =~= decimal(n as nat));
    s
}

/// The decimal writing of `n`.
pub fn usize_to_string(n: usize) -> (r: String)
    ensures
        r@ == decimal(n as nat),
{
    u64_to_string(n as u64)
}

/// Is `c` an ASCII decimal digit?
pub open spec fn is_digit(c: char) -> bool {
    '0' <= c <= '9'
}

/// The value of a sequence of decimal digits (0 for the empty sequence).
pub open spec fn digits_value(s: Seq<char>) -> nat
    decreases s.len(),
{
    if s.len() == 0 {
        0
    } else {
        digits_value(s.drop_last()) * 10 + (s.last() as nat - 48) as nat
    }
}

/// Are all the characters of `d` decimal digits?
pub open spec fn all_digits(d: Seq<char>) -> bool {
    forall|i: int| 0 <= i < d.len() ==> is_digit(#[trigger] d[i])
}

/// `s` without one leading `+`.
pub open spec fn unsigned_part(s: Seq<char>) -> Seq<char> {
    if s.len() > 0 && s[0] == '+' {
        s.skip(1)
    } else {
        s
    }
}

/// What `str::parse::<usize>` gives: an optional `+`, then one or more
/// decimal digits whose value fits in a `usize`.
pub open spec fn parse_usize_spec(s: Seq<char>) -> Option<usize> {
    let d = unsigned_part(s);
    if d.len() > 0 && all_digits(d) && digits_value(d) <= usize::MAX {
        Some(digits_value(d) as usize)
    } else {
        None
    }
}

/// Parses `v[from..to]` as `str::parse::<usize>` does.
pub fn parse_usize_range(v: &Vec<char>, from: usize, to: usize) -> (r: Option<usize>)
    requires
        from <= to <= v@.len(),
    ensures
        r == parse_usize_spec(v@.subrange(from as int, to as int)),
{
    let ghost s = v@.subrange(from as int, to as int);
    let mut start: usize = from;
    if from < to && v[from] == '+' {
        start = from + 1;
    }
    let ghost d = v@.subrange(start as int, to as int);
    assert(d =~= unsigned_part(s));
    if start == to {
        return None;
    }
    let mut i: usize = start;
    let mut acc: usize = 0;
    let mut overflow = false;
    while i < to
        invariant
            from <= start <= i <= to <= v@.len(),
            d == v@.subrange(start as int, to as int),
            s == v@.subrange(from as int, to as int),
            d == unsigned_part(s),
            forall|j: int| start <= j < i ==> is_digit(#[trigger] v@[j]),
            !overflow ==> acc == digits_value(v@.subrange(start as int, i as int)),
            overflow ==> digits_value(v@.subrange(start as int, i as int)) > usize::MAX,
        decreases to - i,
    {
        let c = v[i];
        if !('0' <= c && c <= '9') {
            assert(d[i - start] == c);
            assert(!is_digit(d[i - start]));
            assert(!all_digits(d));
            return None;
        }
        let ghost prev = v@.subrange(start as int, i as int);
        let ghost next = v@.subrange(start as int, i + 1);
        assert(next.drop_last() =~= prev);
        assert(next.last() == c);
        let dig: usize = ((c as u32) - 48) as usize;
        if !overflow {
            if acc > (usize::MAX - dig) / 10 {
                overflow = true;
                assert(acc * 10 + dig > usize::MAX) by (nonlinear_arith)
                    requires
                        acc > (usize::MAX - dig) / 10,
                        dig <= 9,
                ;
            } else {
                assert(acc * 10 + dig <= usize::MAX) by (nonlinear_arith)
                    requires
                        acc <= (usize::MAX - dig) / 10,
                        dig <= 9,
                ;
                acc = acc * 10 + dig;
            }
        } else {
            assert(digits_value(next) >= digits_value(prev)) by (nonlinear_arith)
                requires
                    digits_value(next) == digits_value(prev) * 10 + (c as nat - 48) as nat,
            ;
        }
        i += 1;
    }
    assert(d =~= v@.subrange(start as int, i as int));
    if overflow {
        None
    } else {
        Some(acc)
    }
}

/// Parses a string slice as `str::parse::<usize>` does.
pub fn parse_usize(s: &str) -> (r: Option<usize>)
    ensures
        r == parse_usize_spec(s@),
{
    let v = chars_of(s);
    let r = parse_usize_range(&v, 0, v.len());
    assert(v@.subrange(0, v@.len() as int) =~= v@);
    r
}


/// The decimal writing of a number is made of digits only and reads back as
/// that number.
pub proof fn lemma_decimal_reads_back(n: nat)
    ensures
        decimal(n).len() > 0,
        all_digits(decimal(n)),
        digits_value(decimal(n)) == n,
        n <= usize::MAX ==> parse_usize_spec(decimal(n)) == Some(n as usize),
    decreases n,
{
    let s = decimal(n);
    let d = n % 10;
    assert(digit_char(d) as nat == 48 + d);
    if n >= 10 {
        lemma_decimal_reads_back(n / 10);
        assert(s.drop_last() =~= decimal(n / 10));
        assert(s.last() == digit_char(d));
        assert(digits_value(s) == digits_value(decimal(n / 10)) * 10 + d);
        assert(n == (n / 10) * 10 + d);
        assert(digits_value(s) == n);
        assert forall|i: int| 0 <= i < s.len() implies is_digit(#[trigger] s[i]) by {
            if i < s.len() - 1 {
                assert(s[i] == decimal(n / 10)[i]);
            }
        }
    }
    if n < 10 {
        assert(s.drop_last() =~= Seq::<char>::empty());
        assert(d == n);
        assert(s.last() == digit_char(d));
        assert(digits_value(s.drop_last()) == 0);
        assert(digits_value(s) == n);
    }
    assert(is_digit(s[0]));
    assert(unsigned_part(s) == s);
}

} // verus!
