//! The JSON and TOML codecs, reached through trusted wrappers.
//!
//! Each codec call gets a name for its outcome: a parse gives either a document
//! or the codec's message, a rendering either the text or the message. The
//! outcome depends on the argument alone.
use vstd::prelude::*;
use crate::value::{DocValue, well_formed};

verus! {

/// The number type of the JSON codec, carried through the library unread.
#[verifier::external_type_specification]
#[verifier::external_body]
pub struct ExNumber(serde_json::Number);

/// The document type of the JSON codec, through which both codecs are reached.
#[verifier::external_type_specification]
#[verifier::external_body]
pub struct ExJsonValue(serde_json::Value);

/// What `serde_json::from_str` makes of a text: the document, or its message.
pub uninterp spec fn json_parse(text: Seq<char>) -> Result<DocValue, Seq<char>>;

/// What `toml::from_str` makes of a text: the document, or its message.
pub uninterp spec fn toml_parse(text: Seq<char>) -> Result<DocValue, Seq<char>>;

/// What `toml::to_string` makes of a document: its text, or its message.
pub uninterp spec fn toml_render(doc: DocValue) -> Result<Seq<char>, Seq<char>>;

/// What `serde_json::to_string` makes of a document: its text, or its message.
pub uninterp spec fn json_render_compact(doc: DocValue) -> Result<Seq<char>, Seq<char>>;

/// What `serde_json::to_string_pretty` makes of a document: its indented text,
/// or its message.
pub uninterp spec fn json_render_pretty(doc: DocValue) -> Result<Seq<char>, Seq<char>>;

/// Whether a parse that returned `r` had the outcome `outcome`.
pub open spec fn parse_outcome(r: Result<DocValue, String>, outcome: Result<DocValue, Seq<char>>) -> bool {
    match r {
        Ok(doc) => outcome == Ok::<DocValue, Seq<char>>(doc),
        Err(msg) => outcome == Err::<DocValue, Seq<char>>(msg@),
    }
}

/// Whether a rendering that returned `r` had the outcome `outcome`.
pub open spec fn render_outcome(r: Result<String, String>, outcome: Result<Seq<char>, Seq<char>>) -> bool {
    match r {
        Ok(text) => outcome == Ok::<Seq<char>, Seq<char>>(text@),
        Err(msg) => outcome == Err::<Seq<char>, Seq<char>>(msg@),
    }
}

/// Moves a document of the JSON codec into the library's own tree, node for
/// node, keeping the order in which the codec hands out object entries. The
/// parsing wrappers below use it on the codec's result.
#[verifier::external_body]
fn from_json_value(v: serde_json::Value) -> DocValue {
    match v {
        serde_json::Value::Null => DocValue::Null,
        serde_json::Value::Bool(b) => DocValue::Boolean(b),
        serde_json::Value::Number(n) => DocValue::Number(n),
        serde_json::Value::String(s) => DocValue::String(s),
        serde_json::Value::Array(a) => DocValue::Array(a.into_iter().map(from_json_value).collect()),
        serde_json::Value::Object(m) => DocValue::Table(m.into_iter().map(|(k, x)| (k, from_json_value(x))).collect()),
    }
}

/// Copies the library's tree into a document of the JSON codec, node for node.
/// The rendering wrappers below use it on their argument.
#[verifier::external_body]
fn to_json_value(v: &DocValue) -> serde_json::Value {
    match v {
        DocValue::Null => serde_json::Value::Null,
        DocValue::Boolean(b) => serde_json::Value::Bool(*b),
        DocValue::Number(n) => serde_json::Value::Number(n.clone()),
        DocValue::String(s) => serde_json::Value::String(s.clone()),
        DocValue::Array(a) => serde_json::Value::Array(a.iter().map(to_json_value).collect()),
        DocValue::Table(t) => serde_json::Value::Object(t.iter().map(|(k, x)| (k.clone(), to_json_value(x))).collect()),
    }
}

/// Relies on `serde_json::from_str` into `serde_json::Value`: the document read
/// from `text`, or the message of the syntax error. Its objects are maps, so
/// no table of the result repeats a key.
#[verifier::external_body]
pub(crate) fn parse_json(text: &str) -> (r: Result<DocValue, String>)
    ensures
        parse_outcome(r, json_parse(text@)),
        r matches Ok(doc) ==> well_formed(doc),
{
    serde_json::from_str::<serde_json::Value>(text).map(from_json_value).map_err(|e| e.to_string())
}

/// Relies on `toml::from_str` into `serde_json::Value`: the document read from
/// `text`, or the message of the syntax error. A TOML document is a table,
/// and its deserializer hands the whole of it to a map visitor; the map it
/// fills repeats no key.
#[verifier::external_body]
pub(crate) fn parse_toml(text: &str) -> (r: Result<DocValue, String>)
    ensures
        parse_outcome(r, toml_parse(text@)),
        r matches Ok(doc) ==> doc is Table && well_formed(doc),
{
    toml::from_str::<serde_json::Value>(text).map(from_json_value).map_err(|e| e.to_string())
}

/// Relies on `toml::to_string`: the TOML text of `doc`, or the message of the
/// serializer's refusal.
#[verifier::external_body]
pub(crate) fn render_toml(doc: &DocValue) -> (r: Result<String, String>)
    ensures
        render_outcome(r, toml_render(*doc)),
{
    toml::to_string(&to_json_value(doc)).map_err(|e| e.to_string())
}

/// Relies on `serde_json::to_string`: the single-line JSON text of `doc`, or
/// the message of the serializer's refusal.
#[verifier::external_body]
pub(crate) fn render_json_compact(doc: &DocValue) -> (r: Result<String, String>)
    ensures
        render_outcome(r, json_render_compact(*doc)),
{
    serde_json::to_string(&to_json_value(doc)).map_err(|e| e.to_string())
}

/// Relies on `serde_json::to_string_pretty`: the indented JSON text of `doc`,
/// or the message of the serializer's refusal.
#[verifier::external_body]
pub(crate) fn render_json_pretty(doc: &DocValue) -> (r: Result<String, String>)
    ensures
        render_outcome(r, json_render_pretty(*doc)),
{
    serde_json::to_string_pretty(&to_json_value(doc)).map_err(|e| e.to_string())
}

} // verus!
