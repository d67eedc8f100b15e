//! The JSON documents the library reads (model configurations, tokenizer
//! definitions, saved window state) are parsed and queried with serde_json.
//!
//! A parsed document is held as serde_json's `Value` together with its
//! model, a `JsonDoc`: what the parse gives for a text is named, and the
//! queries are stated over the model as serde_json's source defines them.
use vstd::prelude::*;

verus! {

#[verifier::external_type_specification]
#[verifier::external_body]
pub struct ExJsonValue(serde_json::Value);

/// The model of a JSON value as serde_json holds it. Numbers keep
/// serde_json's three representations: non-negative integers, negative
/// integers, and (finite) floating-point numbers, given by their IEEE 754
/// bit pattern.
pub enum JsonDoc {
    Null,
    Bool(bool),
    PosInt(u64),
    NegInt(i64),
    Float(u64),
    Str(Seq<char>),
    Array(Seq<JsonDoc>),
    Object(Map<Seq<char>, JsonDoc>),
}

/// What serde_json's `from_str` into a `Value` gives for a text: the value,
/// or the rendering of its error.
pub uninterp spec fn json_parse(text: Seq<char>) -> Result<JsonDoc, Seq<char>>;

/// Whether `text` is JSON text that serde_json reads into a `Value`.
pub open spec fn is_json_text(text: Seq<char>) -> bool {
    json_parse(text) is Ok
}

/// The value serde_json reads from JSON text.
pub open spec fn json_doc_of(text: Seq<char>) -> JsonDoc {
    json_parse(text)->Ok_0
}

/// The error serde_json reports for text that is not JSON.
pub open spec fn json_error_of(text: Seq<char>) -> Seq<char> {
    json_parse(text)->Err_0
}

/// The member `key` of an object; none for anything else (`Value::get`).
pub open spec fn doc_member(doc: JsonDoc, key: Seq<char>) -> Option<JsonDoc> {
    match doc {
        JsonDoc::Object(m) => if m.contains_key(key) {
            Some(m[key])
        } else {
            None
        },
        _ => None,
    }
}

/// `Value::as_i64`: an integer that fits in `i64`.
pub open spec fn doc_as_i64(doc: JsonDoc) -> Option<i64> {
    match doc {
        JsonDoc::PosInt(n) => if n <= i64::MAX {
            Some(n as i64)
        } else {
            None
        },
        JsonDoc::NegInt(n) => Some(n),
        _ => None,
    }
}

/// `Value::as_u64`: a non-negative integer.
pub open spec fn doc_as_u64(doc: JsonDoc) -> Option<u64> {
    match doc {
        JsonDoc::PosInt(n) => Some(n),
        _ => None,
    }
}

/// `Value::as_str`: a string.
pub open spec fn doc_as_str(doc: JsonDoc) -> Option<Seq<char>> {
    match doc {
        JsonDoc::Str(s) => Some(s),
        _ => None,
    }
}

/// A document with the member `key` of an object, where there is one, set to
/// `null` (`Value::get_mut` and an assignment); anything else unchanged.
pub open spec fn doc_with_member_null(doc: JsonDoc, key: Seq<char>) -> JsonDoc {
    match doc {
        JsonDoc::Object(m) => if m.contains_key(key) {
            JsonDoc::Object(m.insert(key, JsonDoc::Null))
        } else {
            doc
        },
        _ => doc,
    }
}

/// A parsed JSON document.
pub struct Json {
    value: serde_json::Value,
    doc: Ghost<JsonDoc>,
}

/// A value inside a parsed JSON document.
#[derive(Clone, Copy)]
pub struct JsonRef<'a> {
    value: &'a serde_json::Value,
    doc: Ghost<JsonDoc>,
}

impl Json {
    /// The document's model.
    pub closed spec fn doc(&self) -> JsonDoc {
        self.doc@
    }

    /// The whole document, as a value to query.
    pub fn root(&self) -> (r: JsonRef<'_>)
        ensures
            r.doc() == self.doc(),
    {
        JsonRef { value: &self.value, doc: Ghost(self.doc@) }
    }
}

impl<'a> JsonRef<'a> {
    /// The value's model.
    pub closed spec fn doc(&self) -> JsonDoc {
        self.doc@
    }
}

/// serde_json's `from_str` into a `Value`: the value the text denotes, or
/// the error rendered as a string; both are named by `json_parse`.
#[verifier::external_body]
pub(crate) fn parse_json(text: &str) -> (r: Result<Json, String>)
    ensures
        match json_parse(text@) {
            Ok(doc) => r matches Ok(j) && j.doc() == doc,
            Err(msg) => r matches Err(e) && e@ == msg,
        },
{
    match serde_json::from_str::<serde_json::Value>(text) {
        Ok(value) => Ok(Json { value, doc: Ghost(json_doc_of(text@)) }),
        Err(e) => Err(e.to_string()),
    }
}

/// serde_json's `Value::get` with a string key: the member of an object,
/// none for a missing key or a value that is not an object.
#[verifier::external_body]
pub(crate) fn json_get<'a>(v: JsonRef<'a>, key: &str) -> (r: Option<JsonRef<'a>>)
    ensures
        match doc_member(v.doc(), key@) {
            Some(m) => r matches Some(x) && x.doc() == m,
            None => r is None,
        },
{
    match v.value.get(key) {
        Some(value) => Some(JsonRef { value, doc: Ghost(doc_member(v.doc@, key@)->0) }),
        None => None,
    }
}

/// serde_json's `Value::as_i64`.
#[verifier::external_body]
pub(crate) fn json_as_i64(v: JsonRef<'_>) -> (r: Option<i64>)
    ensures
        r == doc_as_i64(v.doc()),
{
    v.value.as_i64()
}

/// serde_json's `Value::as_u64`.
#[verifier::external_body]
pub(crate) fn json_as_u64(v: JsonRef<'_>) -> (r: Option<u64>)
    ensures
        r == doc_as_u64(v.doc()),
{
    v.value.as_u64()
}

/// serde_json's `Value::as_str`.
#[verifier::external_body]
pub(crate) fn json_as_str<'a>(v: JsonRef<'a>) -> (r: Option<&'a str>)
    ensures
        match doc_as_str(v.doc()) {
            Some(s) => r matches Some(x) && x@ == s,
            None => r is None,
        },
{
    v.value.as_str()
}

/// serde_json's `Value::is_null`.
#[verifier::external_body]
pub(crate) fn json_is_null(v: JsonRef<'_>) -> (r: bool)
    ensures
        r == (v.doc() is Null),
{
    v.value.is_null()
}

/// serde_json's `Value::get_mut` with a string key, then the member found
/// is overwritten with `null`; says whether there was one.
#[verifier::external_body]
pub(crate) fn json_set_member_null(j: &mut Json, key: &str) -> (found: bool)
    ensures
        found == doc_member(old(j).doc(), key@) is Some,
        final(j).doc() == doc_with_member_null(old(j).doc(), key@),
{
    match j.value.get_mut(key) {
        Some(member) => {
            *member = serde_json::Value::Null;
            j.doc = Ghost(doc_with_member_null(j.doc@, key@));
            true
        },
        None => false,
    }
}

/// serde_json's compact rendering of a `Value` (its `Display`). serde_json
/// reads what it writes back to the same value: strings are escaped, and
/// floating-point numbers are written in the shortest form that parses back
/// to the same bits (with the `float_roundtrip` feature, which this crate
/// enables, parsing is correctly rounded). A value read by serde_json is
/// within its nesting limit, and so is its rendering.
#[verifier::external_body]
pub(crate) fn json_to_string(j: &Json) -> (r: String)
    ensures
        is_json_text(r@),
        json_doc_of(r@) == j.doc(),
{
    j.value.to_string()
}

} // verus!
