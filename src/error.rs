use vstd::prelude::*;
use crate::value::SerializeError;

verus! {

/// Why a conversion failed.
#[derive(Debug, PartialEq)]
pub enum ConvertError {
    /// The input path names neither a JSON nor a TOML file.
    UnsupportedFormat,
    /// The input text is not well formed in its format; the codec's message.
    Parse(String),
    /// The document has no rendering in the target format.
    Serialize(SerializeError),
}

} // verus!
