//! The trusted boundary around serde_json.  A parsed document is opaque to
//! the verifier; the uninterpreted functions below name what it holds, and
//! each wrapper's contract states, over those names, what the serde_json
//! call it makes does.
use vstd::prelude::*;

verus! {

#[verifier::external_type_specification]
#[verifier::external_body]
pub struct ExJsonValue(serde_json::Value);

#[verifier::external_type_specification]
#[verifier::external_body]
pub struct ExJsonError(serde_json::Error);

/// One field value of a JSON object, as the contracts see it: a JSON string
/// with its characters, or any other JSON value by its serialized bytes.
pub enum JsonVal {
    Str(Seq<char>),
    Other(Seq<u8>),
}

/// The outcome of parsing bytes as JSON: not JSON at all, JSON whose
/// top-level value is not an object, or an object with its named fields.
pub enum ParsedJson {
    Invalid,
    NotObject,
    Object(Map<Seq<char>, JsonVal>),
}

/// Names what `serde_json::from_slice` makes of given bytes.
pub uninterp spec fn parsed_json(b: Seq<u8>) -> ParsedJson;

/// Whether a parsed document's top-level value is a JSON object.
pub uninterp spec fn doc_is_object(v: serde_json::Value) -> bool;

/// The named fields a parsed JSON object holds.
pub uninterp spec fn doc_fields(v: serde_json::Value) -> Map<Seq<char>, JsonVal>;

/// Whether the document's container nesting stays within serde_json's parse
/// recursion limit, so that its own serialization parses back.  The parser
/// enforces the limit, so every document it produced satisfies this; the
/// serializer enforces none, which is why `to_json_bytes` must require it.
pub uninterp spec fn doc_within_depth(v: serde_json::Value) -> bool;

/// Relies on `serde_json::from_slice`: parses the bytes as one JSON
/// document.  The error value is serde_json's own; callers map it to an
/// error of the library.  A document this call produced nests within the
/// parser's own recursion limit.
#[verifier::external_body]
pub(crate) fn parse_json(b: &Vec<u8>) -> (r: Result<serde_json::Value, serde_json::Error>)
    ensures
        r is Ok <==> !(parsed_json(b@) is Invalid),
        r matches Ok(v) ==> (doc_is_object(v) <==> parsed_json(b@) is Object),
        r matches Ok(v) && parsed_json(b@) matches ParsedJson::Object(f) ==> doc_fields(v) == f,
        r matches Ok(v) ==> doc_within_depth(v),
{
    serde_json::from_slice::<serde_json::Value>(b)
}

/// Relies on `serde_json::Value::is_object`.
#[verifier::external_body]
pub(crate) fn is_object(v: &serde_json::Value) -> (r: bool)
    ensures
        r == doc_is_object(*v),
{
    v.is_object()
}

/// What probing one named field of a JSON object found.
pub enum FieldProbe {
    /// The object has no field of that name.
    Absent,
    /// The field holds a JSON string, carried here.
    Text(String),
    /// The field holds some non-string JSON value.
    NonText,
}

/// Relies on `serde_json::Value::get` and `Value::as_str`: reads one named
/// field of a JSON object.
#[verifier::external_body]
pub(crate) fn probe_field(v: &serde_json::Value, key: &str) -> (r: FieldProbe)
    requires
        doc_is_object(*v),
    ensures
        ({
            let f = doc_fields(*v);
            match r {
                FieldProbe::Absent => !f.contains_key(key@),
                FieldProbe::Text(s) => f.contains_key(key@) && f[key@] == JsonVal::Str(s@),
                FieldProbe::NonText => f.contains_key(key@) && f[key@] is Other,
            }
        }),
{
    match v.get(key) {
        None => FieldProbe::Absent,
        Some(val) => match val.as_str() {
            Some(s) => FieldProbe::Text(s.to_owned()),
            None => FieldProbe::NonText,
        },
    }
}

/// Relies on serde_json's `Value::as_object_mut` and `Map::insert`: sets one
/// named field of a JSON object to a JSON string, leaving every other field
/// as it was.  A string member is no container, so the nesting depth does
/// not grow.
#[verifier::external_body]
pub(crate) fn set_string_field(v: &mut serde_json::Value, key: &str, val: &str)
    requires
        doc_is_object(*old(v)),
    ensures
        doc_is_object(*final(v)),
        doc_fields(*final(v)) == doc_fields(*old(v)).insert(key@, JsonVal::Str(val@)),
        doc_within_depth(*old(v)) ==> doc_within_depth(*final(v)),
{
    if let Some(map) = v.as_object_mut() {
        map.insert(key.to_owned(), serde_json::Value::String(val.to_owned()));
    }
}

/// Relies on `serde_json::to_vec`.  Serializing a `serde_json::Value` cannot
/// fail — its maps are keyed by strings and its `Serialize` impl never
/// errors — so the result is promised to be `Ok`.  Parsing the produced
/// bytes yields the document's own fields back: the `float_roundtrip`
/// feature makes serialize-then-parse the identity on every finite float,
/// and the depth requirement keeps the reparse within the parser's
/// recursion limit.
#[verifier::external_body]
pub(crate) fn to_json_bytes(v: &serde_json::Value) -> (r: Result<Vec<u8>, serde_json::Error>)
    requires
        doc_is_object(*v),
        doc_within_depth(*v),
    ensures
        r is Ok,
        r matches Ok(b) ==> parsed_json(b@) == ParsedJson::Object(doc_fields(*v)),
{
    serde_json::to_vec(v)
}

} // verus!
