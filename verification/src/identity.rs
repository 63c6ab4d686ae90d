//! The application's identifier, read from its configuration.
//!
//! The identifier names the directory, below the user's local data
//! directory, in which the application and its WebView keep their data.

use vstd::prelude::*;

verus! {

/// Why no identifier could be read from a configuration.
#[derive(Debug, PartialEq, Eq)]
pub enum ConfigError {
    /// The configuration is not valid JSON. Holds the parser's description
    /// of the error.
    InvalidJson(String),
    /// The configuration is valid JSON, but it is not an object, or it has no
    /// member `identifier`, or that member is not a string.
    MissingIdentifier,
}

/// A [`ConfigError`] as a mathematical value.
pub enum ConfigFailure {
    InvalidJson(Seq<char>),
    MissingIdentifier,
}

impl View for ConfigError {
    type V = ConfigFailure;

    open spec fn view(&self) -> ConfigFailure {
        match self {
            ConfigError::InvalidJson(detail) => ConfigFailure::InvalidJson(detail@),
            ConfigError::MissingIdentifier => ConfigFailure::MissingIdentifier,
        }
    }
}

impl ConfigError {
    /// A one-line description of the error.
    pub fn message(&self) -> (text: &'static str)
        ensures
            text@ == (match self@ {
                ConfigFailure::InvalidJson(_) => "tauri.conf.json is invalid JSON"@,
                ConfigFailure::MissingIdentifier => "tauri.conf.json missing 'identifier' field"@,
            }),
    {
        match self {
            ConfigError::InvalidJson(_) => "tauri.conf.json is invalid JSON",
            ConfigError::MissingIdentifier => "tauri.conf.json missing 'identifier' field",
        }
    }
}

/// The result of looking a string member up in a JSON text, as a
/// mathematical value.
pub open spec fn lookup_view(found: Result<Option<String>, String>) -> Result<Option<Seq<char>>, Seq<char>> {
    match found {
        Ok(Some(value)) => Ok(Some(value@)),
        Ok(None) => Ok(None),
        Err(detail) => Err(detail@),
    }
}

/// What `serde_json` finds under `key` in `text`: an error text if `text` is
/// not valid JSON; otherwise the string stored under `key` if `text` is an
/// object with such a member and the member is a string, and nothing if not.
pub uninterp spec fn json_string_member(text: Seq<char>, key: Seq<char>) -> Result<Option<Seq<char>>, Seq<char>>;

/// Parses `text` with `serde_json::from_str` into a `serde_json::Value`,
/// indexes the value with `key` and reads the member with `Value::as_str`.
///
/// Trusted: the parser reads nothing but `text`, so the result is the value
/// that [`json_string_member`] names. A parse failure is handed back as the
/// `serde_json::Error` displays; indexing does not fail, it yields null where
/// there is no such member, and null is not a string.
#[verifier::external_body]
fn read_string_member(text: &str, key: &str) -> (found: Result<Option<String>, String>)
    ensures
        lookup_view(found) == json_string_member(text@, key@),
{
    serde_json::from_str::<serde_json::Value>(text)
        .map(|document| document[key].as_str().map(str::to_owned))
        .map_err(|error| error.to_string())
}

/// The identifier, given what was found under `identifier`.
pub open spec fn identifier_from(found: Result<Option<Seq<char>>, Seq<char>>) -> Result<Seq<char>, ConfigFailure> {
    match found {
        Ok(Some(identifier)) => Ok(identifier),
        Ok(None) => Err(ConfigFailure::MissingIdentifier),
        Err(detail) => Err(ConfigFailure::InvalidJson(detail)),
    }
}

/// An identifier or the reason there is none, as a mathematical value.
pub open spec fn identifier_view(outcome: Result<String, ConfigError>) -> Result<Seq<char>, ConfigFailure> {
    match outcome {
        Ok(identifier) => Ok(identifier@),
        Err(error) => Err(error@),
    }
}

/// Turns the result of the lookup into the identifier or the reason there is
/// none.
pub fn identifier_of(found: Result<Option<String>, String>) -> (outcome: Result<String, ConfigError>)
    ensures
        identifier_view(outcome) == identifier_from(lookup_view(found)),
{
    match found {
        Ok(Some(identifier)) => Ok(identifier),
        Ok(None) => Err(ConfigError::MissingIdentifier),
        Err(detail) => Err(ConfigError::InvalidJson(detail)),
    }
}

/// Reads the application's identifier from the text of its configuration:
/// the string stored under `identifier` at the top level.
pub fn get_app_identifier(config: &str) -> (outcome: Result<String, ConfigError>)
    ensures
        identifier_view(outcome) == identifier_from(json_string_member(config@, "identifier"@)),
{
    identifier_of(read_string_member(config, "identifier"))
}

} // verus!
