//! Choosing the direction of a conversion from the input path.
use vstd::prelude::*;
use vstd::string::*;
use crate::error::ConvertError;

verus! {

/// The format of an input file, and so the direction of its conversion.
#[derive(Debug, Clone, Copy, PartialEq, Eq, Structural)]
pub enum Format {
    /// A JSON input, converted to TOML.
    Json,
    /// A TOML input, converted to JSON.
    Toml,
}

/// What `str::to_lowercase` makes of a text.
pub uninterp spec fn lower_of(s: Seq<char>) -> Seq<char>;

/// What `std::path::Path::extension` finds in a path: the part of the file
/// name after its last dot, if there is one.
pub uninterp spec fn extension_of(path: Seq<char>) -> Option<Seq<char>>;

/// The format named by an already lowercased extension, if any.
pub open spec fn format_named(ext: Seq<char>) -> Option<Format> {
    if ext == "json"@ {
        Some(Format::Json)
    } else if ext == "toml"@ {
        Some(Format::Toml)
    } else {
        None
    }
}

/// The format chosen for the file at `path`: the one its extension names,
/// ignoring case.
pub open spec fn format_of_path(path: Seq<char>) -> Option<Format> {
    match extension_of(path) {
        Some(ext) => format_named(lower_of(ext)),
        None => None,
    }
}

/// Relies on `str::to_lowercase`: the lowercase form of `s`.
#[verifier::external_body]
fn lowercase(s: &str) -> (r: String)
    ensures
        r@ == lower_of(s@),
{
    s.to_lowercase()
}

/// Relies on `std::path::Path::extension`: the extension of the file that
/// `path` names, as text.
#[verifier::external_body]
fn path_extension(path: &str) -> (r: Option<String>)
    ensures
        match r {
            Some(ext) => extension_of(path@) == Some(ext@),
            None => extension_of(path@) is None,
        },
{
    std::path::Path::new(path).extension().and_then(|e| e.to_str()).map(|e| e.to_string())
}

/// Tells whether `a` and `b` hold the same characters.
fn same_text(a: &str, b: &str) -> (r: bool)
    ensures
        r == (a@ == b@),
{
    let n = a.unicode_len();
    if n != b.unicode_len() {
        return false;
    }
    let mut i: usize = 0;
    while i < n
        invariant
            n == a@.len(),
            n == b@.len(),
            0 <= i <= n,
            a@.subrange(0, i as int) == b@.subrange(0, i as int),
        decreases n - i,
    {
        if a.get_char(i) != b.get_char(i) {
            assert(a@[i as int] != b@[i as int]);
            return false;
        }
        assert(a@.subrange(0, i + 1) =~= a@.subrange(0, i as int).push(a@[i as int]));
        assert(b@.subrange(0, i + 1) =~= b@.subrange(0, i as int).push(b@[i as int]));
        i = i + 1;
    }
    assert(a@ =~= a@.subrange(0, n as int));
    assert(b@ =~= b@.subrange(0, n as int));
    true
}

/// The format that a lowercased extension names: `json` or `toml`; any other
/// extension is refused.
pub fn format_for_extension(ext: &str) -> (r: Result<Format, ConvertError>)
    ensures
        match format_named(ext@) {
            Some(f) => r == Ok::<Format, ConvertError>(f),
            None => r == Err::<Format, ConvertError>(ConvertError::UnsupportedFormat),
        },
{
    if same_text(ext, "json") {
        Ok(Format::Json)
    } else if same_text(ext, "toml") {
        Ok(Format::Toml)
    } else {
        Err(ConvertError::UnsupportedFormat)
    }
}

/// The format of the file at `path`, from its extension in any case: `.json`
/// or `.toml`. A path with another extension, or with none, is refused. Only
/// the path's text is read.
pub fn select_format(path: &str) -> (r: Result<Format, ConvertError>)
    ensures
        match format_of_path(path@) {
            Some(f) => r == Ok::<Format, ConvertError>(f),
            None => r == Err::<Format, ConvertError>(ConvertError::UnsupportedFormat),
        },
{
    match path_extension(path) {
        Some(ext) => {
            let lowered = lowercase(ext.as_str());
            format_for_extension(lowered.as_str())
        },
        None => Err(ConvertError::UnsupportedFormat),
    }
}

} // verus!
