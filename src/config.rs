//! The configuration file: a TOML document with four string fields.
use vstd::prelude::*;
use crate::text::opt_text;

verus! {

#[verifier::external_type_specification]
#[verifier::external_body]
pub struct ExTomlError(toml::de::Error);

/// A name for what the toml crate finds in a document: `None` where the text
/// is not a TOML document, else the string value under `key`, if there is one.
pub uninterp spec fn toml_str_field(text: Seq<char>, key: Seq<char>) -> Option<Option<Seq<char>>>;

/// Relies on `toml::from_str` into a `toml::Table`, on `Table::get` and on
/// `Value::as_str`.
#[verifier::external_body]
fn toml_field(text: &str, key: &str) -> (r: Result<Option<String>, toml::de::Error>)
    ensures
        r is Ok <==> toml_str_field(text@, key@) is Some,
        r matches Ok(v) ==> toml_str_field(text@, key@) == Some(opt_text(v)),
{
    toml::from_str::<toml::Table>(text).map(|t| t.get(key).and_then(|v| v.as_str()).map(String::from))
}

/// The configuration read from the per-user configuration file.
pub struct Config {
    pub openai_api_key: String,
    pub openai_url: String,
    pub openai_model: String,
    pub user_language: String,
}

/// Why no configuration could be had.
#[derive(Debug)]
pub enum ConfigError {
    /// The per-user configuration directory cannot be determined.
    NoConfigDir,
    /// The configuration file does not exist; its path.
    NotFound(String),
    /// The configuration file could not be read.
    Unreadable(String),
    /// The file is not TOML, or a field is missing or not a string.
    Malformed(String),
    /// The API key field is empty.
    MissingKey,
}

/// The string value of field `key` in `text`, where it is a TOML document
/// that has one.
pub open spec fn field_value(text: Seq<char>, key: Seq<char>) -> Option<Seq<char>> {
    match toml_str_field(text, key) {
        Some(Some(v)) => Some(v),
        _ => None,
    }
}

/// All four fields are present as strings.
pub open spec fn has_all_fields(text: Seq<char>) -> bool {
    field_value(text, "openai_api_key"@) is Some && field_value(text, "openai_url"@) is Some
        && field_value(text, "openai_model"@) is Some && field_value(text, "user_language"@) is Some
}

/// What parsing `text` yields.
pub open spec fn config_outcome(text: Seq<char>, r: Result<Config, ConfigError>) -> bool {
    if !has_all_fields(text) {
        r matches Err(ConfigError::Malformed(_))
    } else if field_value(text, "openai_api_key"@)->0.len() == 0 {
        r matches Err(ConfigError::MissingKey)
    } else {
        match r {
            Ok(c) => c.openai_api_key@ == field_value(text, "openai_api_key"@)->0
                && c.openai_url@ == field_value(text, "openai_url"@)->0
                && c.openai_model@ == field_value(text, "openai_model"@)->0
                && c.user_language@ == field_value(text, "user_language"@)->0,
            Err(_) => false,
        }
    }
}

/// The string value of field `key` of `text`, or why there is none.
fn string_field(text: &str, key: &str) -> (r: Result<String, ConfigError>)
    ensures
        match r {
            Ok(v) => field_value(text@, key@) == Some(v@),
            Err(e) => field_value(text@, key@) is None && e is Malformed,
        },
{
    match toml_field(text, key) {
        Ok(Some(v)) => Ok(v),
        Ok(None) => {
            let mut m = String::from_str("missing field `");
            m.append(key);
            m.append("`, or it is not a string");
            Err(ConfigError::Malformed(m))
        },
        Err(e) => Err(ConfigError::Malformed(e.to_string())),
    }
}

/// The configuration that the text of a configuration file holds.
pub fn parse_config(text: &str) -> (r: Result<Config, ConfigError>)
    ensures
        config_outcome(text@, r),
{
    let openai_api_key = match string_field(text, "openai_api_key") {
        Ok(v) => v,
        Err(e) => return Err(e),
    };
    let openai_url = match string_field(text, "openai_url") {
        Ok(v) => v,
        Err(e) => return Err(e),
    };
    let openai_model = match string_field(text, "openai_model") {
        Ok(v) => v,
        Err(e) => return Err(e),
    };
    let user_language = match string_field(text, "user_language") {
        Ok(v) => v,
        Err(e) => return Err(e),
    };
    if openai_api_key.unicode_len() == 0 {
        return Err(ConfigError::MissingKey);
    }
    Ok(Config { openai_api_key, openai_url, openai_model, user_language })
}

} // verus!
