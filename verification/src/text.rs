//! Small functions on texts: prefixes, branch names, the base of a URL and
//! decimal numbers.

use vstd::prelude::*;
use vstd::string::*;

verus! {

/// Whether `prefix` stands in `s` at position `pos`.
pub open spec fn occurs_at(s: Seq<char>, pos: int, prefix: Seq<char>) -> bool {
    &&& 0 <= pos
    &&& pos + prefix.len() <= s.len()
    &&& forall|k: int| 0 <= k < prefix.len() ==> s[pos + k] == prefix[k]
}

/// Whether `prefix` stands in `s` at the character position `pos`.
pub fn starts_with_at(s: &str, pos: usize, prefix: &str) -> (r: bool)
    ensures
        r == occurs_at(s@, pos as int, prefix@),
{
    let n: usize = s.unicode_len();
    let m: usize = prefix.unicode_len();
    if pos > n || m > n - pos {
        return false;
    }
    let mut k: usize = 0;
    while k < m
        invariant
            k <= m,
            m == prefix@.len(),
            n == s@.len(),
            pos + m <= n,
            forall|j: int| 0 <= j < k ==> s@[pos + j] == prefix@[j],
        decreases m - k,
    {
        if s.get_char(pos + k) != prefix.get_char(k) {
            return false;
        }
        k = k + 1;
    }
    true
}

/// Whether two texts are the same.
pub fn same_text(a: &str, b: &str) -> (r: bool)
    ensures
        r == (a@ == b@),
{
    if a.unicode_len() != b.unicode_len() {
        return false;
    }
    let r: bool = starts_with_at(a, 0, b);
    proof {
        if r {
            assert(a@ =~= b@);
        }
    }
    r
}

/// `s` without every leading copy of `prefix`: the prefix is taken off as
/// long as the text starts with it.
pub open spec fn strip_leading(s: Seq<char>, prefix: Seq<char>) -> Seq<char>
    decreases s.len(),
{
    if prefix.len() > 0 && occurs_at(s, 0, prefix) {
        strip_leading(s.skip(prefix.len() as int), prefix)
    } else {
        s
    }
}

/// The prefix that a reference to a branch carries before the branch's name.
pub open spec fn heads_prefix() -> Seq<char> {
    seq!['r', 'e', 'f', 's', '/', 'h', 'e', 'a', 'd', 's', '/']
}

/// The short name of a branch: its reference without the leading
/// `refs/heads/`, however often that is repeated.
pub open spec fn short_name(id: Seq<char>) -> Seq<char> {
    strip_leading(id, heads_prefix())
}

/// The short name of the branch that `id` refers to.
pub fn short_branch_name(id: &str) -> (r: &str)
    ensures
        r@ == short_name(id@),
{
    let prefix: &str = "refs/heads/";
    proof {
        reveal_strlit("refs/heads/");
        assert(prefix@ =~= heads_prefix());
        assert(id@.skip(0) =~= id@);
    }
    let n: usize = id.unicode_len();
    let mut pos: usize = 0;
    while starts_with_at(id, pos, prefix)
        invariant
            pos <= n,
            n == id@.len(),
            prefix@ == heads_prefix(),
            strip_leading(id@.skip(pos as int), heads_prefix()) == short_name(id@),
        decreases n - pos,
    {
        proof {
            let rest = id@.skip(pos as int);
            assert(occurs_at(rest, 0, heads_prefix())) by {
                assert forall|k: int| 0 <= k < heads_prefix().len() implies rest[0 + k] == heads_prefix()[k] by {
                    assert(rest[k] == id@[pos + k]);
                }
            }
            assert(rest.skip(11) =~= id@.skip(pos + 11));
        }
        pos = pos + 11;
    }
    proof {
        let rest = id@.skip(pos as int);
        if occurs_at(rest, 0, heads_prefix()) {
            assert forall|k: int| 0 <= k < heads_prefix().len() implies id@[pos + k] == heads_prefix()[k] by {
                assert(rest[0 + k] == id@[pos + k]);
            }
            assert(false);
        }
        assert(id@.subrange(pos as int, n as int) =~= rest);
    }
    id.substring_char(pos, n)
}

/// The scheme `http://`.
pub open spec fn http_scheme() -> Seq<char> {
    seq!['h', 't', 't', 'p', ':', '/', '/']
}

/// The scheme `https://`.
pub open spec fn https_scheme() -> Seq<char> {
    seq!['h', 't', 't', 'p', 's', ':', '/', '/']
}

/// The length of the scheme that `url` starts with, if it is one of the two.
pub open spec fn scheme_len(url: Seq<char>) -> Option<int> {
    if occurs_at(url, 0, https_scheme()) {
        Some(8)
    } else if occurs_at(url, 0, http_scheme()) {
        Some(7)
    } else {
        None
    }
}

/// The position of the first `/` in `s` at or after `from`, or the length of
/// `s` where there is none.
pub open spec fn first_slash(s: Seq<char>, from: int) -> int
    decreases s.len() - from,
{
    if from < 0 || from >= s.len() {
        s.len() as int
    } else if s[from] == '/' {
        from
    } else {
        first_slash(s, from + 1)
    }
}

/// The base of a URL: its scheme, `http://` or `https://`, the host that
/// follows, with its port if it names one, and the `/` that ends the host.
/// There is none where the scheme is another, the host is empty or no `/`
/// follows it.
pub open spec fn base_url(url: Seq<char>) -> Option<Seq<char>> {
    match scheme_len(url) {
        None => None,
        Some(k) => {
            let end = first_slash(url, k);
            if k < end < url.len() {
                Some(url.take(end + 1))
            } else {
                None
            }
        },
    }
}

/// Whether the first `n` characters of `url` are a scheme, a host of at
/// least one character, none of them a `/`, and the `/` after the host.
pub open spec fn is_base(url: Seq<char>, n: int) -> bool {
    match scheme_len(url) {
        None => false,
        Some(k) => {
            &&& k + 1 < n <= url.len()
            &&& url[n - 1] == '/'
            &&& forall|j: int| k <= j < n - 1 ==> url[j] != '/'
        },
    }
}

proof fn first_slash_is_first(s: Seq<char>, from: int)
    requires
        0 <= from <= s.len(),
    ensures
        from <= first_slash(s, from) <= s.len(),
        first_slash(s, from) < s.len() ==> s[first_slash(s, from)] == '/',
        forall|j: int| from <= j < first_slash(s, from) ==> s[j] != '/',
    decreases s.len() - from,
{
    if from < s.len() && s[from] != '/' {
        first_slash_is_first(s, from + 1);
    }
}

/// The base of a URL is its one prefix of the shape that [`is_base`]
/// describes, and a URL has a base exactly where it has such a prefix.
pub proof fn base_url_is_base(url: Seq<char>, n: int)
    ensures
        is_base(url, n) <==> base_url(url) == Some(url.take(n)) && 0 <= n <= url.len(),
{
    match scheme_len(url) {
        None => {},
        Some(k) => {
            first_slash_is_first(url, k);
            let end = first_slash(url, k);
            if is_base(url, n) {
                assert(end == n - 1);
            }
            if base_url(url) == Some(url.take(n)) && 0 <= n <= url.len() {
                assert(url.take(n).len() == n);
                assert(url.take(end + 1).len() == end + 1);
            }
        },
    }
}

/// The base of `url`, which is the address of the service that sent it.
pub fn get_base_url(url: &str) -> (r: Option<&str>)
    ensures
        match r {
            Some(base) => base_url(url@) == Some(base@),
            None => base_url(url@) is None,
        },
{
    proof {
        reveal_strlit("https://");
        reveal_strlit("http://");
        assert("https://"@ =~= https_scheme());
        assert("http://"@ =~= http_scheme());
    }
    let n: usize = url.unicode_len();
    let start: usize = if starts_with_at(url, 0, "https://") {
        8
    } else if starts_with_at(url, 0, "http://") {
        7
    } else {
        return None;
    };
    let mut end: usize = start;
    while end < n && url.get_char(end) != '/'
        invariant
            start <= end <= n,
            n == url@.len(),
            first_slash(url@, end as int) == first_slash(url@, start as int),
        decreases n - end,
    {
        end = end + 1;
    }
    if start < end && end < n {
        Some(url.substring_char(0, end + 1))
    } else {
        None
    }
}

/// The ten digits, each at its own value.
pub open spec fn digits() -> Seq<char> {
    seq!['0', '1', '2', '3', '4', '5', '6', '7', '8', '9']
}

/// A natural number in decimal, without leading zeros.
pub open spec fn decimal_nat(n: nat) -> Seq<char>
    decreases n,
{
    if n < 10 {
        seq![digits()[n as int]]
    } else {
        decimal_nat(n / 10).push(digits()[(n % 10) as int])
    }
}

/// An integer in decimal, with `-` before a negative one.
pub open spec fn decimal(i: int) -> Seq<char> {
    if i < 0 {
        seq!['-'] + decimal_nat((-i) as nat)
    } else {
        decimal_nat(i as nat)
    }
}

fn digit_text(d: u64) -> (r: &'static str)
    requires
        d < 10,
    ensures
        r@ == seq![digits()[d as int]],
{
    proof {
        reveal_strlit("0");
        reveal_strlit("1");
        reveal_strlit("2");
        reveal_strlit("3");
        reveal_strlit("4");
        reveal_strlit("5");
        reveal_strlit("6");
        reveal_strlit("7");
        reveal_strlit("8");
        reveal_strlit("9");
    }
    let r: &'static str = if d == 0 {
        "0"
    } else if d == 1 {
        "1"
    } else if d == 2 {
        "2"
    } else if d == 3 {
        "3"
    } else if d == 4 {
        "4"
    } else if d == 5 {
        "5"
    } else if d == 6 {
        "6"
    } else if d == 7 {
        "7"
    } else if d == 8 {
        "8"
    } else {
        "9"
    };
    assert(r@ =~= seq![digits()[d as int]]);
    r
}

fn push_decimal(out: &mut String, n: u64)
    ensures
        final(out)@ == old(out)@ + decimal_nat(n as nat),
    decreases n,
{
    if n >= 10 {
        push_decimal(out, n / 10);
    }
    out.append(digit_text(n % 10));
    proof {
        if n >= 10 {
            assert(final(out)@ =~= old(out)@ + decimal_nat(n as nat));
        }
    }
}

/// `i` written in decimal.
pub fn decimal_string(i: i64) -> (r: String)
    ensures
        r@ == decimal(i as int),
{
    let mut out: String = String::new();
    if i < 0 {
        out.append("-");
        proof {
            reveal_strlit("-");
            assert(out@ =~= seq!['-']);
        }
        let magnitude: u64 = ((-(i + 1)) as u64) + 1;
        push_decimal(&mut out, magnitude);
    } else {
        push_decimal(&mut out, i as u64);
        assert(out@ =~= decimal_nat(i as nat));
    }
    out
}

} // verus!
