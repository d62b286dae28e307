//! Small helpers on instance addresses and channel handles.
use vstd::prelude::*;
use crate::text::{chars_of, push_range, starts_with_at, find_char_from};

verus! {

broadcast use vstd::string::group_string_axioms;

/// Error returned when a handle holds no `@`.
#[derive(Debug, PartialEq, Eq)]
pub struct FromHandleError {}

/// The index of the first `c` in `s`, or `s.len()` when there is none.
pub open spec fn index_of_char(s: Seq<char>, c: char) -> int
    decreases s.len(),
{
    if s.len() == 0 {
        0
    } else if s[0] == c {
        0
    } else {
        1 + index_of_char(s.drop_first(), c)
    }
}

/// `i` is where `index_of_char` stops when `s[..i]` holds no `c` and `s[i]` is `c`
/// (or `i` is the end).
pub proof fn lemma_index_of_char(s: Seq<char>, c: char, i: int)
    requires
        0 <= i <= s.len(),
        forall|j: int| 0 <= j < i ==> s[j] != c,
        i == s.len() || s[i] == c,
    ensures
        index_of_char(s, c) == i,
    decreases s.len(),
{
    if s.len() > 0 && i > 0 {
        assert forall|j: int| 0 <= j < i - 1 implies s.drop_first()[j] != c by {
            assert(s.drop_first()[j] == s[j + 1]);
        }
        lemma_index_of_char(s.drop_first(), c, i - 1);
    }
}

/// The index of the first `c` in `v[from..]`, relative to `from`, with
/// `None` when there is none; stated over `index_of_char`.
pub fn find_char(v: &Vec<char>, from: usize, c: char) -> (r: Option<usize>)
    requires
        from <= v@.len(),
    ensures
        match r {
            Some(i) => from <= i < v@.len() && v@[i as int] == c && i - from == index_of_char(
                v@.skip(from as int),
                c,
            ),
            None => index_of_char(v@.skip(from as int), c) == v@.len() - from && forall|j: int|
                from <= j < v@.len() ==> v@[j] != c,
        },
{
    let r = find_char_from(v, from, c);
    proof {
        let t = v@.skip(from as int);
        match r {
            Some(i) => {
                assert forall|j: int| 0 <= j < i - from implies t[j] != c by {
                    assert(t[j] == v@[from + j]);
                }
                lemma_index_of_char(t, c, i - from);
            },
            None => {
                assert forall|j: int| 0 <= j < t.len() implies t[j] != c by {
                    assert(t[j] == v@[from + j]);
                }
                lemma_index_of_char(t, c, t.len() as int);
            },
        }
    }
    r
}

/// `s` without one trailing `/`.
pub open spec fn strip_trailing_slash(s: Seq<char>) -> Seq<char> {
    if s.len() > 0 && s.last() == '/' {
        s.drop_last()
    } else {
        s
    }
}

/// The address `to_https` gives for `s`: one trailing `/` removed, then
/// `http://` replaced by `https://`, or `https://` put in front when neither
/// scheme is there.
pub open spec fn to_https_spec(s: Seq<char>) -> Seq<char> {
    let t = strip_trailing_slash(s);
    if "https://"@.is_prefix_of(t) {
        t
    } else if "http://"@.is_prefix_of(t) {
        "https://"@ + t.skip(7)
    } else {
        "https://"@ + t
    }
}

/// Normalises an instance address to an `https://` address without a trailing `/`.
pub fn to_https(s: &str) -> (r: String)
    ensures
        r@ == to_https_spec(s@),
{
    let v = chars_of(s);
    let mut end = v.len();
    if end > 0 && v[end - 1] == '/' {
        end = end - 1;
    }
    let ghost t = v@.subrange(0, end as int);
    assert(t =~= strip_trailing_slash(s@));
    let https = chars_of("https://");
    let http = chars_of("http://");
    proof {
        reveal_strlit("http://");
    }
    let mut out = String::new();
    if starts_with_at(&v, 0, &https) && end >= https.len() {
        assert(v@.skip(0) =~= v@);
        assert("https://"@.is_prefix_of(t));
        push_range(&mut out, &v, 0, end);
        assert(out@ =~= t);
    } else if starts_with_at(&v, 0, &http) && end >= http.len() {
        assert(v@.skip(0) =~= v@);
        assert("http://"@.is_prefix_of(t));
        assert(!"https://"@.is_prefix_of(t)) by {
            if "https://"@.is_prefix_of(t) {
                assert(https@ =~= v@.skip(0).subrange(0, https@.len() as int));
            }
        }
        out.append("https://");
        push_range(&mut out, &v, 7, end);
        assert(out@ =~= "https://"@ + t.skip(7));
    } else {
        assert(v@.skip(0) =~= v@);
        assert(!"https://"@.is_prefix_of(t)) by {
            if "https://"@.is_prefix_of(t) {
                assert(https@ =~= v@.skip(0).subrange(0, https@.len() as int));
            }
        }
        assert(!"http://"@.is_prefix_of(t)) by {
            if "http://"@.is_prefix_of(t) {
                assert(http@ =~= v@.skip(0).subrange(0, http@.len() as int));
            }
        }
        out.append("https://");
        push_range(&mut out, &v, 0, end);
        assert(out@ =~= "https://"@ + t);
    }
    out
}

/// The host `host_from_handle` gives for a handle `name@host`: the text between
/// the first `@` and the next one (or the end), after `https://`; `None`
/// when `s` holds no `@`.
pub open spec fn host_from_handle_spec(s: Seq<char>) -> Option<Seq<char>> {
    let i = index_of_char(s, '@');
    if i < s.len() {
        let rest = s.skip(i + 1);
        Some("https://"@ + rest.take(index_of_char(rest, '@')))
    } else {
        None
    }
}

/// The address of the instance that hosts a channel, from its handle.
pub fn host_from_handle(s: &str) -> (r: Result<String, FromHandleError>)
    ensures
        match r {
            Ok(h) => host_from_handle_spec(s@) == Some(h@),
            Err(_) => host_from_handle_spec(s@) is None,
        },
{
    let v = chars_of(s);
    match find_char(&v, 0, '@') {
        None => {
            assert(v@.skip(0) =~= v@);
            Err(FromHandleError {})
        },
        Some(i) => {
            assert(v@.skip(0) =~= v@);
            assert(i < v.len());
            let end = match find_char(&v, i + 1, '@') {
                Some(j) => j,
                None => v.len(),
            };
            let mut out = String::new();
            out.append("https://");
            push_range(&mut out, &v, i + 1, end);
            let ghost rest = v@.skip(i + 1);
            assert(v@.subrange(i + 1, end as int) =~= rest.take(index_of_char(rest, '@')));
            Ok(out)
        },
    }
}

/// The items of `v` in reverse order, so that popping them gives them in order.
pub fn reversed<T>(v: Vec<T>) -> (r: Vec<T>)
    ensures
        r@.len() == v@.len(),
        forall|k: int| 0 <= k < v@.len() ==> #[trigger] r@[k] == v@[v@.len() - 1 - k],
{
    let mut v = v;
    let ghost all = v@;
    let mut r: Vec<T> = Vec::new();
    while v.len() > 0
        invariant
            r@.len() + v@.len() == all.len(),
            v@ == all.take(v@.len() as int),
            forall|k: int| 0 <= k < r@.len() ==> #[trigger] r@[k] == all[all.len() - 1 - k],
        decreases v@.len(),
    {
        let x = v.pop().unwrap();
        r.push(x);
    }
    r
}

/// `to_https` always gives an `https://` address.
pub proof fn lemma_to_https_is_https(s: Seq<char>)
    ensures
        "https://"@.is_prefix_of(to_https_spec(s)),
{
    let t = strip_trailing_slash(s);
    if !"https://"@.is_prefix_of(t) {
        if "http://"@.is_prefix_of(t) {
            let x = "https://"@ + t.skip(7);
            assert(x.take("https://"@.len() as int) =~= "https://"@);
        } else {
            let x = "https://"@ + t;
            assert(x.take("https://"@.len() as int) =~= "https://"@);
        }
    }
}


/// The host of a handle `name@host` (neither part holding `@`) is the
/// `https://` address of `host`; a text without `@` is no handle.
pub proof fn lemma_handle_host(name: Seq<char>, host: Seq<char>, plain: Seq<char>)
    requires
        !name.contains('@'),
        !host.contains('@'),
    ensures
        host_from_handle_spec(name + seq!['@'] + host) == Some("https://"@ + host),
        !plain.contains('@') ==> host_from_handle_spec(plain) is None,
{
    let s = name + seq!['@'] + host;
    assert forall|j: int| 0 <= j < name.len() implies s[j] != '@' by {
        assert(s[j] == name[j]);
    }
    lemma_index_of_char(s, '@', name.len() as int);
    let rest = s.skip(name.len() + 1 as int);
    assert(rest =~= host);
    assert forall|j: int| 0 <= j < host.len() implies host[j] != '@' by {
        assert(!host.contains('@'));
    }
    lemma_index_of_char(host, '@', host.len() as int);
    assert(host.take(host.len() as int) =~= host);
    if !plain.contains('@') {
        assert forall|j: int| 0 <= j < plain.len() implies plain[j] != '@' by {
            assert(!plain.contains('@'));
        }
        lemma_index_of_char(plain, '@', plain.len() as int);
    }
}

/// An instance address becomes the `https` address of the same host: a bare
/// host gets `https://` in front, `http://` becomes `https://`, an `https://`
/// address stays, and one trailing `/` is dropped first.
pub proof fn lemma_https_addresses(h: Seq<char>)
    requires
        h.len() > 0,
        h.last() != '/',
        !"http://"@.is_prefix_of(h),
        !"https://"@.is_prefix_of(h),
    ensures
        to_https_spec(h) == "https://"@ + h,
        to_https_spec("http://"@ + h) == "https://"@ + h,
        to_https_spec("https://"@ + h) == "https://"@ + h,
        to_https_spec(h + seq!['/']) == "https://"@ + h,
        to_https_spec("http://"@ + h + seq!['/']) == "https://"@ + h,
        to_https_spec("https://"@ + h + seq!['/']) == "https://"@ + h,
{
    reveal_strlit("http://");
    reveal_strlit("https://");
    let a = "http://"@ + h;
    let b = "https://"@ + h;
    assert((h + seq!['/']).drop_last() =~= h);
    assert((a + seq!['/']).drop_last() =~= a);
    assert((b + seq!['/']).drop_last() =~= b);
    assert(a.last() == h.last() && b.last() == h.last());
    assert("http://"@.is_prefix_of(a)) by {
        assert(a.take(7) =~= "http://"@);
    }
    assert("https://"@.is_prefix_of(b)) by {
        assert(b.take(8) =~= "https://"@);
    }
    assert(!"https://"@.is_prefix_of(a)) by {
        if "https://"@.is_prefix_of(a) {
            assert(a[4] == 's');
            assert(a[4] == ':');
        }
    }
    assert(a.skip(7) =~= h);
}

} // verus!
