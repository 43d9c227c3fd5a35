//! Reading the sentinel chat-requirements response.  The HTTP exchange
//! itself is the driver's; this module decides what its outcome means: the
//! `token` field's string value when present, an absence marker when the
//! field is missing or not a string (a soft condition), a hard error when
//! the body is not JSON.
use crate::errors::RewriteError;
use crate::jsonio::{is_object, parse_json, parsed_json, probe_field, FieldProbe, JsonVal,
    ParsedJson};
use vstd::prelude::*;

verus! {

/// What a sentinel response body holds.
#[verifier::ext_equal]
pub enum SentinelBodyV {
    /// The body is not valid JSON: a hard error.
    Unparsable,
    /// Valid JSON without a string `token` field: the soft absence case.
    NoToken,
    /// The string value of the body's `token` field.
    Token(Seq<char>),
}

/// What the sentinel response bytes hold, over the parse model.
pub open spec fn spec_sentinel_body(b: Seq<u8>) -> SentinelBodyV {
    match parsed_json(b) {
        ParsedJson::Invalid => SentinelBodyV::Unparsable,
        ParsedJson::NotObject => SentinelBodyV::NoToken,
        ParsedJson::Object(f) => if f.contains_key("token"@) && f["token"@] is Str {
            SentinelBodyV::Token(f["token"@]->Str_0)
        } else {
            SentinelBodyV::NoToken
        },
    }
}

/// Extracts the sentinel token from a successful response's body: the
/// string value of its `token` field if present, `None` when the field is
/// missing or not a string, and a hard error when the body is not JSON.
pub fn sentinel_token_of(body: &Vec<u8>) -> (r: Result<Option<String>, RewriteError>)
    ensures
        match r {
            Ok(Some(t)) => spec_sentinel_body(body@) == SentinelBodyV::Token(t@),
            Ok(None) => spec_sentinel_body(body@) is NoToken,
            Err(e) => e == RewriteError::SentinelUnparsable && spec_sentinel_body(body@)
                is Unparsable,
        },
{
    match parse_json(body) {
        Err(_) => Err(RewriteError::SentinelUnparsable),
        Ok(doc) => {
            if !is_object(&doc) {
                Ok(None)
            } else {
                match probe_field(&doc, "token") {
                    FieldProbe::Text(t) => Ok(Some(t)),
                    _ => Ok(None),
                }
            }
        },
    }
}

} // verus!
