//! Header and authentication assembly.
//!
//! The outgoing header set is an ordered list: the engine's defaults first,
//! then the computed authentication header, then the request's own entries.
//! When the list is handed to the transport each entry overwrites earlier
//! entries of the same (ASCII-case-insensitive) name, so a user-supplied
//! header wins over computed authentication, which wins over the defaults.
//! Disabled entries, entries whose name and value are both empty, and entries
//! that do not encode as valid wire tokens are skipped without affecting the
//! rest.

use vstd::prelude::*;

use crate::models::AuthKind;
use crate::models::HttpHeader;
use crate::urlnorm::eq_ignore_ascii_case;
use crate::urlnorm::str_eq_ignore_ascii_case;

verus! {

/// Whether a header name is a valid wire token, as the HTTP stack decides it.
pub uninterp spec fn wire_header_name_ok(name: Seq<char>) -> bool;

/// Whether a header value is a valid wire value, as the HTTP stack decides it.
pub uninterp spec fn wire_header_value_ok(value: Seq<char>) -> bool;

/// The standard no-padding base64 encoding of the UTF-8 bytes of `s`.
pub uninterp spec fn b64_std_no_pad(s: Seq<char>) -> Seq<char>;

/// Relies on `http::HeaderName::from_bytes`: accepts exactly the valid wire
/// header names, a function of the name alone.
#[verifier::external_body]
fn header_name_is_valid(name: &str) -> (r: bool)
    ensures
        r == wire_header_name_ok(name@),
{
    http::HeaderName::from_bytes(name.as_bytes()).is_ok()
}

/// Relies on `http::HeaderValue::from_str`: accepts exactly the valid wire
/// header values, a function of the value alone.
#[verifier::external_body]
fn header_value_is_valid(value: &str) -> (r: bool)
    ensures
        r == wire_header_value_ok(value@),
{
    http::HeaderValue::from_str(value).is_ok()
}

/// Relies on base64's `STANDARD_NO_PAD` engine: encodes the UTF-8 bytes of
/// `s` without padding, a function of `s` alone.
#[verifier::external_body]
fn base64_encode_no_pad(s: &str) -> (r: String)
    ensures
        r@ == b64_std_no_pad(s@),
{
    base64::Engine::encode(&base64::engine::general_purpose::STANDARD_NO_PAD, s.as_bytes())
}

/// The skip rule of the specification: an entry is a candidate when it is
/// enabled and not entirely empty.
pub open spec fn header_selected(h: HttpHeader) -> bool {
    h.enabled && !(h.name@.len() == 0 && h.value@.len() == 0)
}

/// An HTTP header entry is sent when it passes the skip rule and both its
/// name and value encode as wire tokens; a failing entry is dropped alone.
pub open spec fn header_kept(h: HttpHeader) -> bool {
    header_selected(h) && wire_header_name_ok(h.name@) && wire_header_value_ok(h.value@)
}

/// The views of an assembled name/value list.
pub open spec fn pair_views(l: Seq<(String, String)>) -> Seq<(Seq<char>, Seq<char>)> {
    l.map_values(|p: (String, String)| (p.0@, p.1@))
}

/// The `Authorization` value of basic authentication: `Basic ` followed by
/// the unpadded base64 of `username:password`.
pub open spec fn basic_auth_value(username: Seq<char>, password: Seq<char>) -> Seq<char> {
    "Basic "@ + b64_std_no_pad(username + ":"@ + password)
}

/// The `Authorization` value of bearer authentication.
pub open spec fn bearer_auth_value(token: Seq<char>) -> Seq<char> {
    "Bearer "@ + token
}

/// The entries computed authentication contributes.
pub open spec fn auth_entries(auth: AuthKind) -> Seq<(Seq<char>, Seq<char>)> {
    match auth {
        AuthKind::NoAuth => Seq::empty(),
        AuthKind::Basic { username, password } => seq![
            ("Authorization"@, basic_auth_value(username@, password@)),
        ],
        AuthKind::Bearer { token } => seq![("Authorization"@, bearer_auth_value(token@))],
    }
}

/// Whether an entry of this name is withheld because the transport must set
/// it itself (the multipart `Content-Type` with its boundary).
pub open spec fn header_name_withheld(drop_content_type: bool, name: Seq<char>) -> bool {
    drop_content_type && eq_ignore_ascii_case(name, "Content-Type"@)
}

/// The entries the request's own header list contributes, in input order.
pub open spec fn header_entries(user: Seq<HttpHeader>, drop_content_type: bool) -> Seq<
    (Seq<char>, Seq<char>),
>
    decreases user.len(),
{
    if user.len() == 0 {
        Seq::empty()
    } else {
        let h = user.last();
        let rest = header_entries(user.drop_last(), drop_content_type);
        if header_kept(h) && !header_name_withheld(drop_content_type, h.name@) {
            rest.push((h.name@, h.value@))
        } else {
            rest
        }
    }
}

/// The engine's default headers.
pub open spec fn default_header_entries() -> Seq<(Seq<char>, Seq<char>)> {
    seq![("User-Agent"@, "yaak"@), ("Accept"@, "*/*"@)]
}

/// The complete assembled HTTP header list: defaults, then authentication,
/// then the request's own entries.
pub open spec fn assembled_headers(
    user: Seq<HttpHeader>,
    auth: AuthKind,
    drop_content_type: bool,
) -> Seq<(Seq<char>, Seq<char>)> {
    default_header_entries() + auth_entries(auth) + header_entries(user, drop_content_type)
}

/// The entries a gRPC request's metadata list contributes: the skip rule
/// applies, wire encoding is the transport's concern.
pub open spec fn metadata_entries(user: Seq<HttpHeader>) -> Seq<(Seq<char>, Seq<char>)>
    decreases user.len(),
{
    if user.len() == 0 {
        Seq::empty()
    } else {
        let h = user.last();
        let rest = metadata_entries(user.drop_last());
        if header_selected(h) {
            rest.push((h.name@, h.value@))
        } else {
            rest
        }
    }
}

/// The complete assembled gRPC metadata list: authentication, then the
/// request's own entries.
pub open spec fn assembled_metadata(user: Seq<HttpHeader>, auth: AuthKind) -> Seq<
    (Seq<char>, Seq<char>),
> {
    auth_entries(auth) + metadata_entries(user)
}

/// The authentication header of a request, when its kind computes one.
pub fn auth_header(auth: &AuthKind) -> (r: Option<(String, String)>)
    ensures
        match auth {
            AuthKind::NoAuth => r is None,
            AuthKind::Basic { username, password } => r matches Some(p) && p.0@
                == "Authorization"@ && p.1@ == basic_auth_value(username@, password@),
            AuthKind::Bearer { token } => r matches Some(p) && p.0@ == "Authorization"@ && p.1@
                == bearer_auth_value(token@),
        },
{
    match auth {
        AuthKind::NoAuth => None,
        AuthKind::Basic { username, password } => {
            let joined = username.clone().concat(":").concat(password.as_str());
            let encoded = base64_encode_no_pad(joined.as_str());
            let value = String::from_str("Basic ").concat(encoded.as_str());
            Some((String::from_str("Authorization"), value))
        },
        AuthKind::Bearer { token } => {
            let value = String::from_str("Bearer ").concat(token.as_str());
            Some((String::from_str("Authorization"), value))
        },
    }
}

/// Assemble the header list of one HTTP send: defaults, authentication, then
/// the request's entries with the skip and wire-validity rules applied. For
/// a multipart send `drop_content_type` withholds any `Content-Type` entry
/// so the transport can set its own boundary.
pub fn build_http_headers(
    user: &Vec<HttpHeader>,
    auth: &AuthKind,
    drop_content_type: bool,
) -> (out: Vec<(String, String)>)
    ensures
        pair_views(out@) == assembled_headers(user@, *auth, drop_content_type),
{
    let mut out: Vec<(String, String)> = Vec::new();
    let ghost base: Seq<(Seq<char>, Seq<char>)> = default_header_entries() + auth_entries(*auth);
    out.push((String::from_str("User-Agent"), String::from_str("yaak")));
    out.push((String::from_str("Accept"), String::from_str("*/*")));
    proof {
        assert(pair_views(out@) =~= default_header_entries());
    }
    match auth_header(auth) {
        Some(p) => {
            out.push(p);
            proof {
                assert(pair_views(out@) =~= base);
            }
        },
        None => {
            proof {
                assert(pair_views(out@) =~= base);
            }
        },
    }
    let n = user.len();
    let mut i: usize = 0;
    while i < n
        invariant
            0 <= i <= n,
            n == user@.len(),
            pair_views(out@) == base + header_entries(
                user@.subrange(0, i as int),
                drop_content_type,
            ),
        decreases n - i,
    {
        let h = &user[i];
        let mut keep = h.enabled && !(h.name.as_str().is_empty() && h.value.as_str().is_empty());
        if keep {
            keep = header_name_is_valid(h.name.as_str()) && header_value_is_valid(
                h.value.as_str(),
            );
        }
        if keep && drop_content_type {
            if str_eq_ignore_ascii_case(h.name.as_str(), "Content-Type") {
                keep = false;
            }
        }
        let ghost prev = out@;
        if keep {
            out.push((h.name.clone(), h.value.clone()));
        }
        proof {
            let s1 = user@.subrange(0, i + 1 as int);
            let s0 = user@.subrange(0, i as int);
            assert(s1.drop_last() =~= s0);
            assert(s1.last() == user@[i as int]);
            let entry = user@[i as int];
            if header_kept(entry) && !header_name_withheld(drop_content_type, entry.name@) {
                assert(header_entries(s1, drop_content_type) == header_entries(
                    s0,
                    drop_content_type,
                ).push((entry.name@, entry.value@)));
                assert(pair_views(out@) =~= pair_views(prev).push((entry.name@, entry.value@)));
            } else {
                assert(header_entries(s1, drop_content_type) == header_entries(
                    s0,
                    drop_content_type,
                ));
                assert(pair_views(out@) =~= pair_views(prev));
            }
            assert(pair_views(out@) =~= base + header_entries(s1, drop_content_type));
        }
        i += 1;
    }
    proof {
        assert(user@.subrange(0, n as int) =~= user@);
    }
    out
}

/// Assemble the metadata list of one gRPC call: authentication, then the
/// request's entries with the skip rule applied.
pub fn build_grpc_metadata(user: &Vec<HttpHeader>, auth: &AuthKind) -> (out: Vec<
    (String, String),
>)
    ensures
        pair_views(out@) == assembled_metadata(user@, *auth),
{
    let mut out: Vec<(String, String)> = Vec::new();
    match auth_header(auth) {
        Some(p) => {
            out.push(p);
            proof {
                assert(pair_views(out@) =~= auth_entries(*auth));
            }
        },
        None => {
            proof {
                assert(pair_views(out@) =~= auth_entries(*auth));
            }
        },
    }
    let n = user.len();
    let mut i: usize = 0;
    while i < n
        invariant
            0 <= i <= n,
            n == user@.len(),
            pair_views(out@) == auth_entries(*auth) + metadata_entries(
                user@.subrange(0, i as int),
            ),
        decreases n - i,
    {
        let h = &user[i];
        let keep = h.enabled && !(h.name.as_str().is_empty() && h.value.as_str().is_empty());
        let ghost prev = out@;
        if keep {
            out.push((h.name.clone(), h.value.clone()));
        }
        proof {
            let s1 = user@.subrange(0, i + 1 as int);
            let s0 = user@.subrange(0, i as int);
            assert(s1.drop_last() =~= s0);
            assert(s1.last() == user@[i as int]);
            let entry = user@[i as int];
            if header_selected(entry) {
                assert(metadata_entries(s1) == metadata_entries(s0).push(
                    (entry.name@, entry.value@),
                ));
                assert(pair_views(out@) =~= pair_views(prev).push((entry.name@, entry.value@)));
            } else {
                assert(metadata_entries(s1) == metadata_entries(s0));
                assert(pair_views(out@) =~= pair_views(prev));
            }
            assert(pair_views(out@) =~= auth_entries(*auth) + metadata_entries(s1));
        }
        i += 1;
    }
    proof {
        assert(user@.subrange(0, n as int) =~= user@);
    }
    out
}

/// The value a name resolves to once the list is applied in order with
/// later entries overwriting earlier ones of the same name.
pub open spec fn effective_value(l: Seq<(Seq<char>, Seq<char>)>, name: Seq<char>) -> Option<
    Seq<char>,
>
    decreases l.len(),
{
    if l.len() == 0 {
        None
    } else if eq_ignore_ascii_case(l.last().0, name) {
        Some(l.last().1)
    } else {
        effective_value(l.drop_last(), name)
    }
}

/// Resolving a concatenated list: the right part wins when it knows the name.
pub proof fn lemma_effective_value_concat(
    a: Seq<(Seq<char>, Seq<char>)>,
    b: Seq<(Seq<char>, Seq<char>)>,
    name: Seq<char>,
)
    ensures
        effective_value(a + b, name) == (match effective_value(b, name) {
            Some(v) => Some(v),
            None => effective_value(a, name),
        }),
    decreases b.len(),
{
    if b.len() == 0 {
        assert(a + b =~= a);
    } else {
        assert((a + b).drop_last() =~= a + b.drop_last());
        assert((a + b).last() == b.last());
        lemma_effective_value_concat(a, b.drop_last(), name);
    }
}

/// A skipped header entry — disabled, or empty in both name and value —
/// contributes nothing: the remaining entries are exactly those of the list
/// without it.
pub proof fn lemma_skipped_header_leaves_rest_intact(
    before: Seq<HttpHeader>,
    h: HttpHeader,
    after: Seq<HttpHeader>,
    drop_content_type: bool,
)
    requires
        !header_selected(h),
    ensures
        header_entries(before + seq![h] + after, drop_content_type) == header_entries(
            before + after,
            drop_content_type,
        ),
    decreases after.len(),
{
    if after.len() == 0 {
        assert(before + seq![h] + after =~= before + seq![h]);
        assert((before + seq![h]).drop_last() =~= before);
        assert((before + seq![h]).last() == h);
        assert(before + after =~= before);
    } else {
        let shorter = after.drop_last();
        assert((before + seq![h] + after).drop_last() =~= before + seq![h] + shorter);
        assert((before + seq![h] + after).last() == after.last());
        assert((before + after).drop_last() =~= before + shorter);
        assert((before + after).last() == after.last());
        lemma_skipped_header_leaves_rest_intact(before, h, shorter, drop_content_type);
    }
}

/// Authentication precedence: an `Authorization` entry of the request itself
/// wins over the computed one; absent that, the computed value of the
/// request's authentication kind applies; with no authentication the name
/// stays unset, since no default carries it.
pub proof fn lemma_authorization_precedence(
    user: Seq<HttpHeader>,
    auth: AuthKind,
    drop_content_type: bool,
)
    ensures
        ({
            let resolved = effective_value(
                assembled_headers(user, auth, drop_content_type),
                "Authorization"@,
            );
            match effective_value(header_entries(user, drop_content_type), "Authorization"@) {
                Some(v) => resolved == Some(v),
                None => match auth {
                    AuthKind::NoAuth => resolved is None,
                    AuthKind::Basic { username, password } => resolved == Some(
                        basic_auth_value(username@, password@),
                    ),
                    AuthKind::Bearer { token } => resolved == Some(bearer_auth_value(token@)),
                },
            }
        }),
{
    let name = "Authorization"@;
    lemma_effective_value_concat(
        default_header_entries() + auth_entries(auth),
        header_entries(user, drop_content_type),
        name,
    );
    lemma_effective_value_concat(default_header_entries(), auth_entries(auth), name);
    reveal_strlit("Authorization");
    reveal_strlit("User-Agent");
    reveal_strlit("Accept");
    let defaults = default_header_entries();
    assert(defaults.last().0.len() == 6);
    assert(name.len() == 13);
    assert(effective_value(defaults, name) == effective_value(defaults.drop_last(), name));
    assert(defaults.drop_last().last().0.len() == 10);
    assert(effective_value(defaults.drop_last(), name) == effective_value(
        defaults.drop_last().drop_last(),
        name,
    ));
    assert(defaults.drop_last().drop_last().len() == 0);
    assert(effective_value(defaults, name) is None);
}

} // verus!
