//! Reading, writing and converting documents as text.
use vstd::prelude::*;
use crate::codec::{
    json_parse, toml_parse, toml_render, json_render_compact, json_render_pretty,
    parse_json, parse_toml, render_toml, render_json_compact, render_json_pretty,
};
use crate::error::ConvertError;
use crate::value::{DocValue, SerializeError, toml_problem, has_null, well_formed, check_toml_document};

verus! {

/// Whether `r` is what reading `text` with the codec outcome `outcome` gives:
/// the document, or a parse error with the codec's message.
pub open spec fn read_result(
    outcome: Result<DocValue, Seq<char>>,
    r: Result<DocValue, ConvertError>,
) -> bool {
    match outcome {
        Ok(doc) => r == Ok::<DocValue, ConvertError>(doc),
        Err(msg) => r matches Err(ConvertError::Parse(m)) && m@ == msg,
    }
}

/// Whether `r` is what writing a document with the codec outcome `outcome`
/// gives: the text, or a serialize error with the codec's message.
pub open spec fn written_result(
    outcome: Result<Seq<char>, Seq<char>>,
    r: Result<String, ConvertError>,
) -> bool {
    match outcome {
        Ok(text) => r matches Ok(s) && s@ == text,
        Err(msg) => r matches Err(ConvertError::Serialize(SerializeError::Codec(m))) && m@ == msg,
    }
}

/// Whether `r` is what writing `doc` as TOML gives: a document that is not a
/// table, or holds a null, is refused for that reason; any other is handed to
/// the TOML codec.
pub open spec fn toml_written(doc: DocValue, r: Result<String, ConvertError>) -> bool {
    match toml_problem(doc) {
        Some(p) => r == Err::<String, ConvertError>(ConvertError::Serialize(p)),
        None => written_result(toml_render(doc), r),
    }
}

/// What the JSON codec makes of `doc`, indented or on one line.
pub open spec fn json_rendering(doc: DocValue, pretty: bool) -> Result<Seq<char>, Seq<char>> {
    if pretty {
        json_render_pretty(doc)
    } else {
        json_render_compact(doc)
    }
}

/// Whether `r` is what converting the JSON text `text` to TOML gives.
pub open spec fn json_to_toml_result(text: Seq<char>, r: Result<String, ConvertError>) -> bool {
    match json_parse(text) {
        Ok(doc) => toml_written(doc, r),
        Err(msg) => r matches Err(ConvertError::Parse(m)) && m@ == msg,
    }
}

/// Whether `r` is what converting the TOML text `text` to JSON gives.
pub open spec fn toml_to_json_result(
    text: Seq<char>,
    pretty: bool,
    r: Result<String, ConvertError>,
) -> bool {
    match toml_parse(text) {
        Ok(doc) => written_result(json_rendering(doc, pretty), r),
        Err(msg) => r matches Err(ConvertError::Parse(m)) && m@ == msg,
    }
}

/// Reads a JSON text into a document, whose tables repeat no key.
pub fn read_json(text: &str) -> (r: Result<DocValue, ConvertError>)
    ensures
        read_result(json_parse(text@), r),
        r matches Ok(doc) ==> well_formed(doc),
{
    match parse_json(text) {
        Ok(doc) => Ok(doc),
        Err(msg) => Err(ConvertError::Parse(msg)),
    }
}

/// Reads a TOML text into a document, which is always a table and whose
/// tables repeat no key.
pub fn read_toml(text: &str) -> (r: Result<DocValue, ConvertError>)
    ensures
        read_result(toml_parse(text@), r),
        r matches Ok(doc) ==> doc is Table && well_formed(doc),
{
    match parse_toml(text) {
        Ok(doc) => Ok(doc),
        Err(msg) => Err(ConvertError::Parse(msg)),
    }
}

/// Writes a document as TOML. The root must be a table and no null may occur
/// anywhere; the TOML codec writes what passes that check.
pub fn write_toml(doc: &DocValue) -> (r: Result<String, ConvertError>)
    ensures
        toml_written(*doc, r),
{
    match check_toml_document(doc) {
        Err(p) => Err(ConvertError::Serialize(p)),
        Ok(()) => match render_toml(doc) {
            Ok(text) => Ok(text),
            Err(msg) => Err(ConvertError::Serialize(SerializeError::Codec(msg))),
        },
    }
}

/// Writes a document as JSON: indented over several lines when `pretty`
/// holds, on a single line otherwise.
pub fn write_json(doc: &DocValue, pretty: bool) -> (r: Result<String, ConvertError>)
    ensures
        written_result(json_rendering(*doc, pretty), r),
{
    let rendered = if pretty {
        render_json_pretty(doc)
    } else {
        render_json_compact(doc)
    };
    match rendered {
        Ok(text) => Ok(text),
        Err(msg) => Err(ConvertError::Serialize(SerializeError::Codec(msg))),
    }
}

/// Converts a JSON text to TOML. The `pretty` flag is accepted for symmetry
/// with the other direction and changes nothing: TOML has one rendering here.
pub fn convert_json_to_toml(text: &str, _pretty: bool) -> (r: Result<String, ConvertError>)
    ensures
        json_to_toml_result(text@, r),
{
    match read_json(text) {
        Ok(doc) => write_toml(&doc),
        Err(e) => Err(e),
    }
}

/// Converts a TOML text to JSON, indented when `pretty` holds.
pub fn convert_toml_to_json(text: &str, pretty: bool) -> (r: Result<String, ConvertError>)
    ensures
        toml_to_json_result(text@, pretty, r),
{
    match read_toml(text) {
        Ok(doc) => write_json(&doc, pretty),
        Err(e) => Err(e),
    }
}

/// Writing one document as TOML twice gives the same outcome: the same text,
/// character for character, or the same refusal.
pub proof fn lemma_toml_writing_is_deterministic(
    doc: DocValue,
    r1: Result<String, ConvertError>,
    r2: Result<String, ConvertError>,
)
    requires
        toml_written(doc, r1),
        toml_written(doc, r2),
    ensures
        r1 is Ok <==> r2 is Ok,
        r1 is Ok ==> r1->Ok_0@ == r2->Ok_0@,
{
}

/// Writing one document as JSON twice in the same mode gives the same
/// outcome: the same text, character for character, or the same refusal.
pub proof fn lemma_json_writing_is_deterministic(
    doc: DocValue,
    pretty: bool,
    r1: Result<String, ConvertError>,
    r2: Result<String, ConvertError>,
)
    requires
        written_result(json_rendering(doc, pretty), r1),
        written_result(json_rendering(doc, pretty), r2),
    ensures
        r1 is Ok <==> r2 is Ok,
        r1 is Ok ==> r1->Ok_0@ == r2->Ok_0@,
{
}

/// A JSON text whose document holds a null anywhere is not converted to TOML:
/// the conversion fails with a serialize error, which names the null when the
/// root is a table.
pub proof fn lemma_null_is_refused(text: Seq<char>, r: Result<String, ConvertError>)
    requires
        json_parse(text) matches Ok(doc) && has_null(doc),
        json_to_toml_result(text, r),
    ensures
        r matches Err(ConvertError::Serialize(e)) && (json_parse(text)->Ok_0 is Table
            ==> e == SerializeError::NullValue),
{
}

/// A JSON text whose root is an array or a scalar is not converted to TOML:
/// the conversion fails because the root is not a table.
pub proof fn lemma_non_table_root_is_refused(text: Seq<char>, r: Result<String, ConvertError>)
    requires
        json_parse(text) matches Ok(doc) && !(doc is Table),
        json_to_toml_result(text, r),
    ensures
        r == Err::<String, ConvertError>(ConvertError::Serialize(SerializeError::NonTableRoot)),
{
}

} // verus!
