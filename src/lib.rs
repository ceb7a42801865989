//! Conversion between JSON and TOML configuration documents.
pub mod codec;
pub mod convert;
pub mod error;
pub mod format;
pub mod value;

pub use error::ConvertError;
pub use format::{Format, format_for_extension, select_format};
pub use value::{DocValue, SerializeError, check_toml_document, contains_null};
pub use convert::{convert_json_to_toml, convert_toml_to_json, read_json, read_toml, write_json, write_toml};
