//! Scheme normalization for user-typed URLs.
//!
//! A request URL typed without a scheme cannot be parsed, so a scheme is
//! chosen before parsing: the hostname is probed, and the top-level domains
//! `.app`, `.dev` and `.page` (which require TLS in browsers) force
//! `https://`; every other host defaults to `http://`. A URL that already
//! carries `http://` or `https://` is left untouched.

use vstd::prelude::*;

verus! {

/// `p` is a prefix of `s`.
pub open spec fn starts_with(s: Seq<char>, p: Seq<char>) -> bool {
    p.len() <= s.len() && s.subrange(0, p.len() as int) == p
}

/// The lower-cased code point of `c`, folding only ASCII letters.
pub open spec fn lower_code(c: char) -> int {
    if 65 <= c as int && c as int <= 90 {
        c as int + 32
    } else {
        c as int
    }
}

/// `a` and `b` are equal up to ASCII case.
pub open spec fn eq_ignore_ascii_case(a: Seq<char>, b: Seq<char>) -> bool {
    a.len() == b.len() && forall|i: int| 0 <= i < a.len() ==> lower_code(a[i]) == lower_code(b[i])
}

/// `p` is a suffix of `s`, up to ASCII case.
pub open spec fn ends_with_ignore_ascii_case(s: Seq<char>, p: Seq<char>) -> bool {
    p.len() <= s.len() && eq_ignore_ascii_case(
        s.subrange(s.len() - p.len(), s.len() as int),
        p,
    )
}

/// A character that ends the authority component of a URL.
pub open spec fn is_authority_stop(c: char) -> bool {
    c == '/' || c == '?' || c == '#'
}

/// Index of the first authority-ending character at or after `i`, or `s.len()`.
pub open spec fn stop_from(s: Seq<char>, i: int) -> int
    recommends
        0 <= i <= s.len(),
    decreases s.len() - i,
{
    if i < 0 || i >= s.len() {
        s.len() as int
    } else if is_authority_stop(s[i]) {
        i
    } else {
        stop_from(s, i + 1)
    }
}

/// Index just after the last `'@'` strictly before `i`, or `0` when there is
/// none: where the host begins once user information is stripped.
pub open spec fn after_last_at(s: Seq<char>, i: int) -> int
    recommends
        0 <= i <= s.len(),
    decreases i,
{
    if i <= 0 {
        0
    } else if s[i - 1] == '@' {
        i
    } else {
        after_last_at(s, i - 1)
    }
}

/// Index of the first `':'` in `[i, stop)`, or `stop`: where the host ends
/// once a port is stripped.
pub open spec fn colon_from(s: Seq<char>, i: int, stop: int) -> int
    recommends
        0 <= i <= stop <= s.len(),
    decreases stop - i,
{
    if i < 0 || i >= stop {
        stop
    } else if s[i] == ':' {
        i
    } else {
        colon_from(s, i + 1, stop)
    }
}

/// The host of a URL written without a scheme: the authority runs to the
/// first `/`, `?` or `#`; user information up to the last `@` and a trailing
/// `:port` are stripped.
pub open spec fn host_of_schemeless(s: Seq<char>) -> Seq<char> {
    let stop = stop_from(s, 0);
    let hs = after_last_at(s, stop);
    let he = colon_from(s, hs, stop);
    s.subrange(hs, he)
}

/// Whether this host's top-level domain forces `https://`.
pub open spec fn host_forces_https(host: Seq<char>) -> bool {
    ||| ends_with_ignore_ascii_case(host, ".app"@)
    ||| ends_with_ignore_ascii_case(host, ".dev"@)
    ||| ends_with_ignore_ascii_case(host, ".page"@)
}

/// `s` already names its scheme.
pub open spec fn has_http_scheme(s: Seq<char>) -> bool {
    starts_with(s, "http://"@) || starts_with(s, "https://"@)
}

/// What [`ensure_proto`] returns.
pub open spec fn normalized_url(s: Seq<char>) -> Seq<char> {
    if has_http_scheme(s) {
        s
    } else if host_forces_https(host_of_schemeless(s)) {
        "https://"@ + s
    } else {
        "http://"@ + s
    }
}

proof fn lemma_stop_from_found(s: Seq<char>, i: int, k: int)
    requires
        0 <= i <= k <= s.len(),
        forall|j: int| i <= j < k ==> !is_authority_stop(s[j]),
        k == s.len() || is_authority_stop(s[k]),
    ensures
        stop_from(s, i) == k,
    decreases k - i,
{
    if i < k {
        lemma_stop_from_found(s, i + 1, k);
    }
}

proof fn lemma_colon_from_found(s: Seq<char>, i: int, stop: int, k: int)
    requires
        0 <= i <= k <= stop <= s.len(),
        forall|j: int| i <= j < k ==> s[j] != ':',
        k == stop || s[k] == ':',
    ensures
        colon_from(s, i, stop) == k,
    decreases k - i,
{
    if i < k {
        lemma_colon_from_found(s, i + 1, stop, k);
    }
}

/// `p` prefixes its own concatenations.
pub proof fn lemma_starts_with_concat(p: Seq<char>, t: Seq<char>)
    ensures
        starts_with(p + t, p),
{
    assert((p + t).subrange(0, p.len() as int) =~= p);
}

/// Whether `p` is a prefix of `s`.
pub fn str_starts_with(s: &str, p: &str) -> (r: bool)
    ensures
        r == starts_with(s@, p@),
{
    let n = p.unicode_len();
    let m = s.unicode_len();
    if n > m {
        return false;
    }
    let mut i: usize = 0;
    while i < n
        invariant
            0 <= i <= n <= m,
            n == p@.len(),
            m == s@.len(),
            forall|j: int| 0 <= j < i ==> s@[j] == p@[j],
        decreases n - i,
    {
        if s.get_char(i) != p.get_char(i) {
            assert(s@.subrange(0, n as int)[i as int] == s@[i as int]);
            return false;
        }
        i += 1;
    }
    assert(s@.subrange(0, n as int) =~= p@);
    true
}

/// Whether `p` is a suffix of `s` up to ASCII case.
pub fn str_ends_with_ignore_ascii_case(s: &str, p: &str) -> (r: bool)
    ensures
        r == ends_with_ignore_ascii_case(s@, p@),
{
    let n = p.unicode_len();
    let m = s.unicode_len();
    if n > m {
        return false;
    }
    let d = m - n;
    let mut i: usize = 0;
    while i < n
        invariant
            0 <= i <= n <= m,
            d == m - n,
            n == p@.len(),
            m == s@.len(),
            forall|j: int| 0 <= j < i ==> lower_code(s@[d + j]) == lower_code(p@[j]),
        decreases n - i,
    {
        let cs = s.get_char(d + i);
        let cp = p.get_char(i);
        if lower_code_of(cs) != lower_code_of(cp) {
            assert(s@.subrange(d as int, m as int)[i as int] == s@[d + i]);
            return false;
        }
        i += 1;
    }
    assert forall|j: int| 0 <= j < n implies lower_code(
        s@.subrange(d as int, m as int)[j],
    ) == lower_code(p@[j]) by {
        assert(s@.subrange(d as int, m as int)[j] == s@[d + j]);
    }
    true
}

/// Whether `a` and `b` are equal up to ASCII case.
pub fn str_eq_ignore_ascii_case(a: &str, b: &str) -> (r: bool)
    ensures
        r == eq_ignore_ascii_case(a@, b@),
{
    let n = a.unicode_len();
    let m = b.unicode_len();
    if n != m {
        return false;
    }
    let mut i: usize = 0;
    while i < n
        invariant
            0 <= i <= n,
            n == a@.len(),
            n == b@.len(),
            forall|j: int| 0 <= j < i ==> lower_code(a@[j]) == lower_code(b@[j]),
        decreases n - i,
    {
        if lower_code_of(a.get_char(i)) != lower_code_of(b.get_char(i)) {
            return false;
        }
        i += 1;
    }
    true
}

/// The lower-cased code point of `c`, folding only ASCII letters.
fn lower_code_of(c: char) -> (r: u32)
    ensures
        r as int == lower_code(c),
{
    let u = c as u32;
    if 65 <= u && u <= 90 {
        u + 32
    } else {
        u
    }
}

/// A character that ends the authority component of a URL.
fn is_stop_char(c: char) -> (r: bool)
    ensures
        r == is_authority_stop(c),
{
    c == '/' || c == '?' || c == '#'
}

/// The host of a URL written without a scheme.
pub fn schemeless_host(s: &str) -> (h: String)
    ensures
        h@ == host_of_schemeless(s@),
{
    let n = s.unicode_len();
    let mut stop: usize = 0;
    while stop < n && !is_stop_char(s.get_char(stop))
        invariant
            0 <= stop <= n,
            n == s@.len(),
            forall|j: int| 0 <= j < stop ==> !is_authority_stop(s@[j]),
        decreases n - stop,
    {
        stop += 1;
    }
    proof {
        lemma_stop_from_found(s@, 0, stop as int);
    }
    let mut hs: usize = 0;
    let mut i: usize = 0;
    while i < stop
        invariant
            0 <= i <= stop <= n,
            n == s@.len(),
            hs as int == after_last_at(s@, i as int),
            hs <= i,
        decreases stop - i,
    {
        if s.get_char(i) == '@' {
            hs = i + 1;
        }
        i += 1;
    }
    let mut he: usize = hs;
    while he < stop && s.get_char(he) != ':'
        invariant
            hs <= he <= stop <= n,
            n == s@.len(),
            forall|j: int| hs <= j < he ==> s@[j] != ':',
        decreases stop - he,
    {
        he += 1;
    }
    proof {
        lemma_colon_from_found(s@, hs as int, stop as int, he as int);
    }
    let part = s.substring_char(hs, he);
    part.to_owned()
}

/// Whether this host's top-level domain forces `https://`.
pub fn host_requires_https(host: &str) -> (r: bool)
    ensures
        r == host_forces_https(host@),
{
    str_ends_with_ignore_ascii_case(host, ".app") || str_ends_with_ignore_ascii_case(host, ".dev")
        || str_ends_with_ignore_ascii_case(host, ".page")
}

/// Normalize the scheme of a request URL before parsing: keep an explicit
/// `http://` or `https://`, force `https://` for hosts under `.app`, `.dev`
/// or `.page`, and default everything else to `http://`.
pub fn ensure_proto(url: &str) -> (r: String)
    ensures
        r@ == normalized_url(url@),
        has_http_scheme(r@),
{
    if str_starts_with(url, "http://") || str_starts_with(url, "https://") {
        return url.to_owned();
    }
    let host = schemeless_host(url);
    if host_requires_https(host.as_str()) {
        proof {
            lemma_starts_with_concat("https://"@, url@);
        }
        String::from_str("https://").concat(url)
    } else {
        proof {
            lemma_starts_with_concat("http://"@, url@);
        }
        String::from_str("http://").concat(url)
    }
}

/// Prefix a gRPC endpoint with `http://` when it names no scheme, so that it
/// parses as a URI.
pub fn safe_uri(endpoint: &str) -> (r: String)
    ensures
        has_http_scheme(endpoint@) ==> r@ == endpoint@,
        !has_http_scheme(endpoint@) ==> r@ == "http://"@ + endpoint@,
{
    if str_starts_with(endpoint, "http://") || str_starts_with(endpoint, "https://") {
        endpoint.to_owned()
    } else {
        String::from_str("http://").concat(endpoint)
    }
}

} // verus!
