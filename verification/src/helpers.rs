//! How sizes, counts, durations, dates and descriptions are written on screen.
use vstd::prelude::*;
use crate::text::{chars_of, push_char, push_range, push_decimal, decimal, starts_with_at};
use crate::utils::{find_char, index_of_char};
use crate::dates::{Elapsed, Timestamp, whole_milliseconds, div_trunc, elapsed_between, now, format_long_date, long_date_text, difference};

verus! {

broadcast use vstd::string::group_string_axioms;

/// The unit prefixes, one per power of the base.
pub const PREFIXES: [&'static str; 5] = ["", "K", "M", "G", "E"];

/// `n` divided by `base` as long as it stays at or above `base`: the
/// quotient and the number of divisions.
pub open spec fn scale(n: nat, base: nat) -> (nat, nat)
    decreases n,
{
    if base > 1 && n >= base {
        proof {
            assert(n / base < n) by (nonlinear_arith)
                requires
                    base > 1,
                    n >= base,
            ;
        }
        let (q, e) = scale(n / base, base);
        (q, e + 1)
    } else {
        (n, 0)
    }
}

/// `base` to the power `k`.
pub open spec fn power(base: nat, k: nat) -> nat
    decreases k,
{
    if k == 0 {
        1
    } else {
        base * power(base, (k - 1) as nat)
    }
}

/// Below `base^k`, fewer than `k` divisions are made.
pub proof fn lemma_scale_exponent(n: nat, base: nat, k: nat)
    requires
        base > 1,
        k >= 1,
        n < power(base, k),
    ensures
        scale(n, base).1 < k,
    decreases n,
{
    if n >= base {
        let b2 = power(base, (k - 1) as nat);
        assert(power(base, k) == base * b2);
        if k == 1 {
            assert(power(base, k) == base * power(base, 0));
            assert(power(base, 0) == 1);
            let p1 = power(base, k);
            let p0 = power(base, 0);
            assert(p1 == base) by (nonlinear_arith)
                requires
                    p1 == base * p0,
                    p0 == 1,
            ;
            assert(n < base);
            assert(false);
                }
        assert(n / base < b2) by (nonlinear_arith)
            requires
                n < base * b2,
                base > 1,
        ;
        assert(n / base < n) by (nonlinear_arith)
            requires
                base > 1,
                n >= base,
        ;
        lemma_scale_exponent(n / base, base, (k - 1) as nat);
    }
}

/// `n` written with a unit prefix, for the base `base`.
pub open spec fn scaled_text(n: nat, base: nat) -> Seq<char> {
    let (q, e) = scale(n, base);
    decimal(q) + PREFIXES@[e as int]@
}

/// Divides `n` by `base` as long as it stays at or above `base`, and writes
/// the quotient with its unit prefix at the end of `out`.
fn push_scaled(out: &mut String, n: u64, base: u64)
    requires
        base > 1,
        scale(n as nat, base as nat).1 < 5,
    ensures
        final(out)@ == old(out)@ + scaled_text(n as nat, base as nat),
{
    let mut s: u64 = n;
    let mut id: usize = 0;
    while s >= base && id < 5
        invariant
            base > 1,
            scale(s as nat, base as nat).0 == scale(n as nat, base as nat).0,
            scale(s as nat, base as nat).1 + id == scale(n as nat, base as nat).1,
            scale(n as nat, base as nat).1 < 5,
        decreases s,
    {
        s = s / base;
        id += 1;
    }
    push_decimal(out, s);
    out.append(PREFIXES[id]);
}

/// A size in bytes, with a binary unit prefix: `1023B`, `1KB`, `2MB`.
pub fn pretty_size(s: u64) -> (r: String)
    requires
        s < 1125899906842624,
    ensures
        r@ == scaled_text(s as nat, 1024) + "B"@,
{
    proof {
        reveal_with_fuel(power, 6);
        assert(power(1024, 5) == 1125899906842624);
        lemma_scale_exponent(s as nat, 1024, 5);
    }
    let mut out = String::new();
    push_scaled(&mut out, s, 1024);
    out.append("B");
    out
}

/// A count, with a decimal unit prefix: `999`, `1K`, `1M`.
pub fn display_count(c: u64) -> (r: String)
    requires
        c < 1000000000000000,
    ensures
        r@ == scaled_text(c as nat, 1000),
{
    proof {
        reveal_with_fuel(power, 6);
        assert(power(1000, 5) == 1000000000000000);
        lemma_scale_exponent(c as nat, 1000, 5);
    }
    let mut out = String::new();
    push_scaled(&mut out, c, 1000);
    out
}

/// `n` written on at least two digits.
pub open spec fn two_digits(n: nat) -> Seq<char> {
    if n < 10 {
        seq!['0'] + decimal(n)
    } else {
        decimal(n)
    }
}

/// A duration in seconds as `mm:ss` below an hour, `h:mm:ss` above.
pub open spec fn pretty_duration_spec(d: nat) -> Seq<char> {
    if d < 60 {
        seq!['0', '0', ':'] + two_digits(d)
    } else if d < 3600 {
        two_digits(d / 60) + seq![':'] + two_digits(d % 60)
    } else {
        decimal(d / 3600) + seq![':'] + two_digits((d % 3600) / 60) + seq![':'] + two_digits(
            d % 60,
        )
    }
}

/// Appends `n` on at least two digits.
fn push_two_digits(out: &mut String, n: u64)
    ensures
        final(out)@ == old(out)@ + two_digits(n as nat),
{
    if n < 10 {
        push_char(out, '0');
    }
    push_decimal(out, n);
    assert(out@ =~= old(out)@ + two_digits(n as nat));
}

/// A duration in seconds as `mm:ss` below an hour, `h:mm:ss` above.
pub fn pretty_duration(d: u64) -> (r: String)
    ensures
        r@ == pretty_duration_spec(d as nat),
{
    let mut out = String::new();
    if d < 60 {
        push_char(&mut out, '0');
        push_char(&mut out, '0');
        push_char(&mut out, ':');
        push_two_digits(&mut out, d);
    } else if d < 3600 {
        push_two_digits(&mut out, d / 60);
        push_char(&mut out, ':');
        push_two_digits(&mut out, d % 60);
    } else {
        push_decimal(&mut out, d / 3600);
        push_char(&mut out, ':');
        push_two_digits(&mut out, (d % 3600) / 60);
        push_char(&mut out, ':');
        push_two_digits(&mut out, d % 60);
    }
    assert(out@ =~= pretty_duration_spec(d as nat));
    out
}

/// `LIVE` for a live stream, the duration otherwise.
pub fn pretty_duration_or_live(d: u64, is_live: bool) -> (r: String)
    ensures
        r@ == (if is_live {
            "LIVE"@
        } else {
            pretty_duration_spec(d as nat)
        }),
{
    if is_live {
        String::from_str("LIVE")
    } else {
        pretty_duration(d)
    }
}

/// How long ago something happened, in its largest whole unit, for a length
/// of `s` seconds and `n` nanoseconds.
pub open spec fn since_text(s: int, n: int) -> Seq<char> {
    if s * 1000 + div_trunc(n, 1_000_000) < 0 {
        "From the future. Bug?"@
    } else if s / 60 < 1 {
        decimal(s as nat) + seq!['s']
    } else if s / 3600 < 1 {
        decimal((s / 60) as nat) + seq!['m', 'i', 'n']
    } else if s / 86400 < 1 {
        decimal((s / 3600) as nat) + seq!['h']
    } else if s / 604800 < 1 {
        decimal((s / 86400) as nat) + seq!['d']
    } else if s / 604800 < 5 {
        decimal((s / 604800) as nat) + seq!['w']
    } else if s / 86400 < 365 {
        decimal((s / 86400 / 30) as nat) + seq!['m']
    } else {
        decimal((s / 86400 / 365) as nat) + seq!['y']
    }
}

/// How long ago something happened, in its largest whole unit.
pub open spec fn pretty_duration_since_spec(e: Elapsed) -> Seq<char> {
    since_text(e.secs(), e.nanos())
}

/// How long ago something happened, in its largest whole unit: `59s`, `1min`, `23h`, `11m`.
pub fn pretty_duration_since(d: Elapsed) -> (r: String)
    ensures
        r@ == pretty_duration_since_spec(d),
{
    let s = d.whole_seconds();
    let n = d.subsec_nanoseconds();
    let nd: i128 = if n >= 0 {
        (n as i128) / 1_000_000
    } else {
        -((-(n as i128)) / 1_000_000)
    };
    let ms: i128 = (s as i128) * 1000 + nd;
    assert(ms == whole_milliseconds(d));
    if ms < 0 {
        return String::from_str("From the future. Bug?");
    }
    assert(s >= 0) by {
        if s < 0 {
            assert(div_trunc(n as int, 1_000_000) < 1000);
        }
    }
    let u: u64 = s as u64;
    let mut out = String::new();
    if s / 60 < 1 {
        push_decimal(&mut out, u);
        push_char(&mut out, 's');
    } else if s / 3600 < 1 {
        push_decimal(&mut out, u / 60);
        push_char(&mut out, 'm');
        push_char(&mut out, 'i');
        push_char(&mut out, 'n');
    } else if s / 86400 < 1 {
        push_decimal(&mut out, u / 3600);
        push_char(&mut out, 'h');
    } else if s / 604800 < 1 {
        push_decimal(&mut out, u / 86400);
        push_char(&mut out, 'd');
    } else if s / 604800 < 5 {
        push_decimal(&mut out, u / 604800);
        push_char(&mut out, 'w');
    } else if s / 86400 < 365 {
        push_decimal(&mut out, u / 86400 / 30);
        push_char(&mut out, 'm');
    } else {
        push_decimal(&mut out, u / 86400 / 365);
        push_char(&mut out, 'y');
    }
    assert(out@ =~= pretty_duration_since_spec(d));
    out
}

/// How long before `now` the instant `d` is.
pub open spec fn pretty_date_spec(now: Timestamp, d: Timestamp) -> Seq<char> {
    since_text(difference(now, d).0, difference(now, d).1)
}

/// How long before `now` the instant `d` is: `3d`, `2w`, `1y`.
pub fn pretty_date_at(now: &Timestamp, d: &Timestamp) -> (r: String)
    ensures
        r@ == pretty_date_spec(*now, *d),
{
    let e = elapsed_between(now, d);
    pretty_duration_since(e)
}

/// How long ago the instant `d` is, from the current time (which the
/// contract cannot know).
pub fn pretty_date(d: &Timestamp) -> (r: String)
    ensures
        exists|t: Timestamp| r@ == pretty_date_spec(t, *d),
{
    let t = now();
    pretty_date_at(&t, d)
}

/// A date in long form: `Friday 8 July 2016`.
pub fn full_date(d: &Timestamp) -> (r: String)
    ensures
        r@ == long_date_text(d.seconds(), d.offset()),
{
    format_long_date(d)
}

/// A number has at most `n / 10 + 1` decimal digits.
pub proof fn lemma_decimal_len(n: nat)
    ensures
        decimal(n).len() <= n / 10 + 1,
        decimal(n).len() >= 1,
    decreases n,
{
    if n >= 10 {
        lemma_decimal_len(n / 10);
    }
}

/// The number of decimal digits of `i`.
pub fn display_length(i: usize) -> (r: usize)
    ensures
        r == decimal(i as nat).len(),
{
    let mut n: usize = i;
    let mut len: usize = 1;
    proof {
        lemma_decimal_len(i as nat);
    }
    while n >= 10
        invariant
            1 <= len,
            len - 1 + decimal(n as nat).len() == decimal(i as nat).len(),
            decimal(i as nat).len() <= i / 10 + 1,
        decreases n,
    {
        proof {
            lemma_decimal_len((n / 10) as nat);
        }
        len += 1;
        n /= 10;
    }
    len
}

/// `index_of_char` is an index of `s`, or its length.
pub proof fn lemma_index_of_char_bounds(s: Seq<char>, c: char)
    ensures
        0 <= index_of_char(s, c) <= s.len(),
        index_of_char(s, c) < s.len() ==> s[index_of_char(s, c)] == c,
        forall|j: int| 0 <= j < index_of_char(s, c) ==> s[j] != c,
    decreases s.len(),
{
    if s.len() > 0 && s[0] != c {
        lemma_index_of_char_bounds(s.drop_first(), c);
        assert forall|j: int| 0 <= j < index_of_char(s, c) implies s[j] != c by {
            if j > 0 {
                assert(s[j] == s.drop_first()[j - 1]);
            }
        }
    }
}

/// Is `c` written on one byte in UTF-8?
pub open spec fn is_one_byte(c: char) -> bool {
    (c as u32) < 128
}

/// `remove_html` works on `s` without slicing a string out of bounds or
/// inside a character: each entity it knows (`&amp`, `&lt`, `&gt`, `&apos`) is
/// followed by a one-byte character, which it drops with the entity.
pub open spec fn html_ok(s: Seq<char>) -> bool
    decreases s.len(),
{
    if s.len() == 0 {
        true
    } else if "&amp"@.is_prefix_of(s) {
        s.len() >= 5 && is_one_byte(s[4]) && html_ok(s.skip(5))
    } else if "&lt"@.is_prefix_of(s) {
        s.len() >= 4 && is_one_byte(s[3]) && html_ok(s.skip(4))
    } else if "&gt"@.is_prefix_of(s) {
        s.len() >= 4 && is_one_byte(s[3]) && html_ok(s.skip(4))
    } else if "&apos"@.is_prefix_of(s) {
        s.len() >= 6 && is_one_byte(s[5]) && html_ok(s.skip(6))
    } else if s[0] == '&' {
        html_ok(s.skip(1))
    } else {
        let lt = index_of_char(s, '<');
        let amp = index_of_char(s, '&');
        proof {
            lemma_index_of_char_bounds(s, '<');
            lemma_index_of_char_bounds(s, '&');
        }
        if lt == s.len() && amp == s.len() {
            true
        } else if lt == s.len() || (amp < s.len() && amp < lt) {
            html_ok(s.skip(amp))
        } else {
            let after = s.skip(lt + 1);
            let gt = index_of_char(after, '>');
            proof {
                lemma_index_of_char_bounds(after, '>');
            }
            if gt == after.len() {
                true
            } else {
                html_ok(after.skip(gt + 1))
            }
        }
    }
}

/// The text of an HTML fragment: tags dropped, `<br />` turned into a line
/// break, and the entities `&amp`, `&lt`, `&gt`, `&apos` (with the character
/// after them) turned into the character they stand for.
pub open spec fn html_text(s: Seq<char>) -> Seq<char>
    decreases s.len(),
{
    if s.len() == 0 {
        s
    } else if "&amp"@.is_prefix_of(s) {
        if s.len() >= 5 {
            seq!['&'] + html_text(s.skip(5))
        } else {
            seq![]
        }
    } else if "&lt"@.is_prefix_of(s) {
        if s.len() >= 4 {
            seq!['<'] + html_text(s.skip(4))
        } else {
            seq![]
        }
    } else if "&gt"@.is_prefix_of(s) {
        if s.len() >= 4 {
            seq!['>'] + html_text(s.skip(4))
        } else {
            seq![]
        }
    } else if "&apos"@.is_prefix_of(s) {
        if s.len() >= 6 {
            seq!['\''] + html_text(s.skip(6))
        } else {
            seq![]
        }
    } else if s[0] == '&' {
        seq!['&'] + html_text(s.skip(1))
    } else {
        let lt = index_of_char(s, '<');
        let amp = index_of_char(s, '&');
        proof {
            lemma_index_of_char_bounds(s, '<');
            lemma_index_of_char_bounds(s, '&');
        }
        if lt == s.len() && amp == s.len() {
            s
        } else if lt == s.len() || (amp < s.len() && amp < lt) {
            s.take(amp) + html_text(s.skip(amp))
        } else {
            let after = s.skip(lt + 1);
            let gt = index_of_char(after, '>');
            proof {
                lemma_index_of_char_bounds(after, '>');
            }
            if gt == after.len() {
                s.take(lt)
            } else {
                s.take(lt) + (if after.take(gt) == "br /"@ {
                    seq!['\n']
                } else {
                    seq![]
                }) + html_text(after.skip(gt + 1))
            }
        }
    }
}

/// The text of an HTML fragment, as `html_text` describes it.
pub fn remove_html(input: &str) -> (r: String)
    requires
        html_ok(input@),
    ensures
        r@ == html_text(input@),
{
    let v = chars_of(input);
    let amp_e = chars_of("&amp");
    let lt_e = chars_of("&lt");
    let gt_e = chars_of("&gt");
    let apos_e = chars_of("&apos");
    let br = chars_of("br /");
    proof {
        reveal_strlit("br /");
    }
    let mut out = String::new();
    let mut pos: usize = 0;
    assert(v@.skip(0) =~= v@);
    while pos < v.len()
        invariant
            pos <= v@.len(),
            amp_e@ == "&amp"@,
            lt_e@ == "&lt"@,
            gt_e@ == "&gt"@,
            apos_e@ == "&apos"@,
            br@ == "br /"@,
            br@.len() == 4,
            html_ok(v@.skip(pos as int)),
            out@ + html_text(v@.skip(pos as int)) == html_text(input@),
            v@ == input@,
        decreases v@.len() - pos,
    {
        let ghost rest = v@.skip(pos as int);
        if starts_with_at(&v, pos, &amp_e) {
            push_char(&mut out, '&');
            assert(rest.skip(5) =~= v@.skip(pos + 5));
            pos = pos + 5;
            continue;
        }
        if starts_with_at(&v, pos, &lt_e) {
            push_char(&mut out, '<');
            assert(rest.skip(4) =~= v@.skip(pos + 4));
            pos = pos + 4;
            continue;
        }
        if starts_with_at(&v, pos, &gt_e) {
            push_char(&mut out, '>');
            assert(rest.skip(4) =~= v@.skip(pos + 4));
            pos = pos + 4;
            continue;
        }
        if starts_with_at(&v, pos, &apos_e) {
            push_char(&mut out, '\'');
            assert(rest.skip(6) =~= v@.skip(pos + 6));
            pos = pos + 6;
            continue;
        }
        if v[pos] == '&' {
            push_char(&mut out, '&');
            assert(rest.skip(1) =~= v@.skip(pos + 1));
            pos = pos + 1;
            continue;
        }
        proof {
            lemma_index_of_char_bounds(rest, '<');
            lemma_index_of_char_bounds(rest, '&');
        }
        let lt = find_char(&v, pos, '<');
        let amp = find_char(&v, pos, '&');
        let to_amp = match (lt, amp) {
            (None, None) => {
                push_range(&mut out, &v, pos, v.len());
                assert(v@.subrange(pos as int, v@.len() as int) =~= rest);
                return out;
            },
            (None, Some(a)) => Some(a),
            (Some(l), Some(a)) => if a < l {
                Some(a)
            } else {
                None
            },
            (Some(_), None) => None,
        };
        match to_amp {
            Some(a) => {
                push_range(&mut out, &v, pos, a);
                assert(v@.subrange(pos as int, a as int) =~= rest.take(a - pos));
                assert(rest.skip(a - pos) =~= v@.skip(a as int));
                assert(out@ + html_text(v@.skip(a as int)) == html_text(input@));
                pos = a;
            },
            None => {
                let l = match lt {
                    Some(l) => l,
                    None => 0,
                };
                push_range(&mut out, &v, pos, l);
                assert(v@.subrange(pos as int, l as int) =~= rest.take(l - pos));
                let after: usize = l + 1;
                let ghost after_s = rest.skip(l - pos + 1);
                assert(after_s =~= v@.skip(after as int));
                proof {
                    lemma_index_of_char_bounds(after_s, '>');
                }
                match find_char(&v, after, '>') {
                    None => {
                        assert(out@ == html_text(input@));
                        return out;
                    },
                    Some(g) => {
                        let is_br = g - after == 4 && starts_with_at(&v, after, &br);
                        if is_br {
                            assert(v@.skip(after as int).take(4) =~= br@);
                            push_char(&mut out, '\n');
                        } else {
                            assert(after_s.take(g - after) != "br /"@) by {
                                if after_s.take(g - after) == "br /"@ {
                                    assert(br@ =~= v@.skip(after as int).subrange(0, 4));
                                }
                            }
                        }
                        assert(after_s.skip(g - after + 1) =~= v@.skip(g + 1));
                        assert(out@ + html_text(v@.skip(g + 1)) == html_text(input@));
                        pos = g + 1;
                    },
                }
            },
        }
    }
    assert(v@.skip(pos as int) =~= Seq::<char>::empty());
    out
}


/// How long ago something happened is written in the largest unit that it
/// reaches, as a whole number of that unit that is never 0 once a minute has
/// passed: seconds under a minute, minutes under an hour, hours under a day,
/// days under a week, weeks under five weeks, months of 30 days under a year
/// of 365 days, and years beyond. A length before the present is reported.
pub proof fn lemma_since_units(s: int, n: int)
    requires
        -1_000_000_000 < n < 1_000_000_000,
        s > 0 ==> n >= 0,
        s < 0 ==> n <= 0,
    ensures
        s < 0 ==> since_text(s, n) == "From the future. Bug?"@,
        0 <= s < 60 && n >= 0 ==> since_text(s, n) == decimal(s as nat) + seq!['s'],
        60 <= s < 3600 ==> since_text(s, n) == decimal((s / 60) as nat) + seq!['m', 'i', 'n'] && 1 <= s / 60 < 60,
        3600 <= s < 86400 ==> since_text(s, n) == decimal((s / 3600) as nat) + seq!['h'] && 1 <= s / 3600 < 24,
        86400 <= s < 604800 ==> since_text(s, n) == decimal((s / 86400) as nat) + seq!['d'] && 1 <= s / 86400 < 7,
        604800 <= s < 3024000 ==> since_text(s, n) == decimal((s / 604800) as nat) + seq!['w'] && 1 <= s / 604800
            < 5,
        3024000 <= s < 31536000 ==> since_text(s, n) == decimal((s / 86400 / 30) as nat) + seq!['m'] && 1 <= s
            / 86400 / 30 <= 12,
        31536000 <= s ==> since_text(s, n) == decimal((s / 86400 / 365) as nat) + seq!['y'] && 1 <= s / 86400 / 365,
{
    assert(div_trunc(n, 1_000_000) > -1000 && div_trunc(n, 1_000_000) < 1000);
    if s >= 0 {
        assert(n >= 0 || s == 0);
    }
    if s < 0 {
        reveal_strlit("From the future. Bug?");
    }
}


/// How long before `now` the instant `d` is, as `pretty_date_at` writes it, is
/// in the units of `lemma_since_units` for the whole seconds between them:
/// for instants with the same nanoseconds, a video published three days
/// before `now` is written `3d`.
pub proof fn lemma_pretty_date_units(now: Timestamp, d: Timestamp)
    requires
        now.nanos() == d.nanos(),
    ensures
        pretty_date_spec(now, d) == since_text(now.seconds() - d.seconds(), 0),
        86400 <= now.seconds() - d.seconds() < 604800 ==> pretty_date_spec(now, d) == decimal(
            ((now.seconds() - d.seconds()) / 86400) as nat,
        ) + seq!['d'],
{
    lemma_since_units(now.seconds() - d.seconds(), 0);
}


/// Powers of a base of at least 1 are at least 1.
proof fn lemma_power_pos(base: nat, k: nat)
    requires
        base >= 1,
    ensures
        power(base, k) >= 1,
    decreases k,
{
    if k > 0 {
        lemma_power_pos(base, (k - 1) as nat);
        let p = power(base, (k - 1) as nat);
        assert(base * p >= 1) by (nonlinear_arith)
            requires
                base >= 1,
                p >= 1,
        ;
    }
}

/// A number written with a unit prefix shows the whole number of the
/// largest power of the base that it reaches: that number is below the
/// base, and at least 1 for a number at least 1; the prefix is the one of
/// that power (`K`, `M`, `G`, `E` for the first four).
pub proof fn lemma_scale_parts(n: nat, base: nat)
    requires
        base > 1,
    ensures
        scale(n, base).0 == n / power(base, scale(n, base).1),
        scale(n, base).0 < base,
        n >= 1 ==> scale(n, base).0 >= 1,
        scaled_text(n, base) == decimal(n / power(base, scale(n, base).1)) + PREFIXES@[scale(n, base).1 as int]@,
    decreases n,
{
    if n >= base {
        assert(n / base < n && n / base >= 1) by (nonlinear_arith)
            requires
                base > 1,
                n >= base,
        ;
        lemma_scale_parts(n / base, base);
        let e = scale(n / base, base).1;
        lemma_power_pos(base, e);
        vstd::arithmetic::div_mod::lemma_div_denominator(n as int, base as int, power(base, e) as int);
        assert(power(base, e + 1) == base * power(base, e));
    } else {
        assert(power(base, 0) == 1);
        assert(n / 1 == n);
    }
}

/// A duration is written as minutes and seconds under an hour, and as hours,
/// minutes and seconds from an hour on, minutes and seconds on two digits:
/// the numbers written add up to the duration.
pub proof fn lemma_duration_parts(d: nat, h: nat, m: nat, s: nat)
    requires
        m < 60,
        s < 60,
    ensures
        d < 3600 && d == m * 60 + s ==> pretty_duration_spec(d) == two_digits(m) + seq![':'] + two_digits(s),
        d >= 3600 && d == h * 3600 + m * 60 + s ==> pretty_duration_spec(d) == decimal(h) + seq![':'] + two_digits(m)
            + seq![':'] + two_digits(s),
{
    if d < 3600 && d == m * 60 + s {
        vstd::arithmetic::div_mod::lemma_fundamental_div_mod_converse(d as int, 60, m as int, s as int);
        if d < 60 {
            assert(m == 0);
            assert(crate::text::digit_char(0) == '0');
            assert(two_digits(0) =~= seq!['0', '0']);
            assert(pretty_duration_spec(d) =~= two_digits(m) + seq![':'] + two_digits(s));
        }
    }
    if d >= 3600 && d == h * 3600 + m * 60 + s {
        let r = m * 60 + s;
        assert(r < 3600);
        vstd::arithmetic::div_mod::lemma_fundamental_div_mod_converse(d as int, 3600, h as int, r as int);
        vstd::arithmetic::div_mod::lemma_fundamental_div_mod_converse(r as int, 60, m as int, s as int);
        assert(d == (h * 60 + m) * 60 + s) by (nonlinear_arith)
            requires
                d == h * 3600 + m * 60 + s,
        ;
        vstd::arithmetic::div_mod::lemma_fundamental_div_mod_converse(d as int, 60, (h * 60 + m) as int, s as int);
    }
}

} // verus!
