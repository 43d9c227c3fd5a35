//! Header-side helpers: the session-cookie test, bearer-credential
//! extraction, the cookie value format, and the character rule a value must
//! satisfy to form a legal HTTP header value.
use crate::strutil::{contains_seq, starts_with_seq, str_contains, str_starts_with, str_suffix_from};
use vstd::prelude::*;

verus! {

/// The session-id cookie field's name.
pub fn puid_marker() -> (r: &'static str)
    ensures
        r@ == "puid"@,
{
    "puid"
}

/// The fixed header that carries the sentinel token.
pub fn sentinel_header_name() -> (r: &'static str)
    ensures
        r@ == "openai-sentinel-chat-requirements-token"@,
{
    "openai-sentinel-chat-requirements-token"
}

/// The fixed header that carries the challenge token.
pub fn challenge_header_name() -> (r: &'static str)
    ensures
        r@ == "openai-sentinel-arkose-token"@,
{
    "openai-sentinel-arkose-token"
}

/// Whether the request's Cookie header already carries the session marker.
pub open spec fn spec_has_puid(cookie: Option<Seq<char>>) -> bool {
    cookie matches Some(c) && contains_seq(c, "puid"@)
}

/// Scans the Cookie header value, if any, for the session marker.
pub fn has_puid(cookie: &Option<String>) -> (r: bool)
    ensures
        r == spec_has_puid(cookie.deep_view()),
{
    match cookie {
        Some(c) => str_contains(c.as_str(), "puid"),
        None => false,
    }
}

/// The bearer credential an Authorization header carries: the characters
/// after the `Bearer ` scheme prefix, or nothing when the header is absent
/// or not of that scheme.
pub open spec fn spec_bearer(auth: Option<Seq<char>>) -> Option<Seq<char>> {
    match auth {
        Some(a) => if starts_with_seq(a, "Bearer "@) {
            Some(a.subrange("Bearer "@.len() as int, a.len() as int))
        } else {
            None
        },
        None => None,
    }
}

/// Extracts the bearer credential from the Authorization header value.
pub fn bearer_token(auth: &Option<String>) -> (r: Option<String>)
    ensures
        match r {
            Some(t) => spec_bearer(auth.deep_view()) == Some(t@),
            None => spec_bearer(auth.deep_view()) is None,
        },
{
    match auth {
        Some(a) => {
            let scheme = "Bearer ";
            if str_starts_with(a.as_str(), scheme) {
                let n = scheme.unicode_len();
                Some(str_suffix_from(a.as_str(), n).to_owned())
            } else {
                None
            }
        },
        None => None,
    }
}

/// The canonical cookie header value carrying a session id.
pub open spec fn spec_cookie_value(sid: Seq<char>) -> Seq<char> {
    "puid="@ + sid + ";"@
}

/// Builds the cookie header value `puid=<sid>;`.
pub fn cookie_value(sid: &str) -> (r: String)
    ensures
        r@ == spec_cookie_value(sid@),
{
    let mut s = "puid=".to_owned();
    s.append(sid);
    s.append(";");
    s
}

/// A character every HTTP header value may contain: horizontal tab and any
/// character other than the control characters and delete.  This mirrors
/// the byte rule http's `HeaderValue::from_str` enforces; characters beyond
/// ASCII encode to bytes that rule accepts.
pub open spec fn valid_header_char(c: char) -> bool {
    c == '\t' || (c as u32 >= 32 && c as u32 != 127)
}

/// A string that can form a legal HTTP header value.
pub open spec fn valid_header_value(s: Seq<char>) -> bool {
    forall|i: int| 0 <= i < s.len() ==> valid_header_char(#[trigger] s[i])
}

/// Checks whether every character of `s` is acceptable in a header value.
pub fn check_header_value(s: &str) -> (r: bool)
    ensures
        r == valid_header_value(s@),
{
    let len = s.unicode_len();
    let mut i: usize = 0;
    while i < len
        invariant
            i <= len,
            len == s@.len(),
            forall|j: int| 0 <= j < i ==> valid_header_char(#[trigger] s@[j]),
        decreases len - i,
    {
        let c = s.get_char(i);
        if !(c == '\t' || (c as u32 >= 32 && c as u32 != 127)) {
            return false;
        }
        i += 1;
    }
    true
}

} // verus!
