//! Daemon connection parameters, extracted from the daemon's configuration
//! document.
//!
//! The document is JSON; the controller address lives at
//! `experimental.clash_api.external_controller` and the secret at
//! `experimental.clash_api.secret`. Both fields are required; the controller
//! address is turned into an `http://` URL.

use vstd::prelude::*;

verus! {

#[verifier::external_type_specification]
#[verifier::external_body]
pub struct ExJsonValue(serde_json::Value);

#[verifier::external_type_specification]
#[verifier::external_body]
pub struct ExJsonError(serde_json::Error);

/// How to reach and authenticate with the daemon's control API.
#[derive(Clone, Debug)]
pub struct DaemonConfig {
    pub controller_url: String,
    pub secret: Option<String>,
}

/// The configuration document could not be used.
#[derive(Clone, Copy, PartialEq, Eq, Structural, Debug)]
pub enum ConfigError {
    /// The configuration file is missing.
    Missing,
    /// The configuration file could not be read.
    Unreadable,
    /// The document is not valid JSON.
    Malformed,
    /// A required field is absent or not a string.
    MissingField,
}

/// A parsed configuration document together with its source text. The fields
/// are private to this module and only `parse_document` builds a value, so
/// the parsed value always stems from the recorded text.
pub struct Document {
    value: serde_json::Value,
    source: String,
}

impl View for Document {
    type V = Seq<char>;

    /// A document is viewed as its source text.
    closed spec fn view(&self) -> Seq<char> {
        self.source@
    }
}

/// Whether a text is a valid JSON document: a function of the text alone.
pub uninterp spec fn json_parses_of(text: Seq<char>) -> bool;

/// The string at `experimental.clash_api.external_controller` of the JSON
/// document written `text`, if that path holds a string: a function of the
/// text alone.
pub uninterp spec fn controller_of(text: Seq<char>) -> Option<Seq<char>>;

/// The string at `experimental.clash_api.secret` of the JSON document
/// written `text`, if that path holds a string: a function of the text alone.
pub uninterp spec fn secret_of(text: Seq<char>) -> Option<Seq<char>>;

/// Relies on `serde_json::from_str`: parses a JSON document, failing exactly
/// on text that is not valid JSON; the parsed value is paired with its text.
#[verifier::external_body]
fn parse_document(text: &str) -> (r: Result<Document, serde_json::Error>)
    ensures
        r is Ok <==> json_parses_of(text@),
        r matches Ok(d) ==> d@ == text@,
{
    match serde_json::from_str(text) {
        Ok(value) => Ok(Document { value, source: text.to_owned() }),
        Err(e) => Err(e),
    }
}

/// Relies on `serde_json::Value::pointer` (and `Value::as_str`): the string
/// at `experimental.clash_api.external_controller`, which depends on the
/// document's text alone.
#[verifier::external_body]
fn document_controller(d: &Document) -> (r: Option<String>)
    ensures
        match r {
            Some(c) => controller_of(d@) == Some(c@),
            None => controller_of(d@) is None,
        },
{
    match d.value.pointer("/experimental/clash_api/external_controller") {
        Some(v) => v.as_str().map(str::to_owned),
        None => None,
    }
}

/// Relies on `serde_json::Value::pointer` (and `Value::as_str`): the string
/// at `experimental.clash_api.secret`, which depends on the document's text
/// alone.
#[verifier::external_body]
fn document_secret(d: &Document) -> (r: Option<String>)
    ensures
        match r {
            Some(s) => secret_of(d@) == Some(s@),
            None => secret_of(d@) is None,
        },
{
    match d.value.pointer("/experimental/clash_api/secret") {
        Some(v) => v.as_str().map(str::to_owned),
        None => None,
    }
}

/// Decide the configuration from the two extracted fields: both are
/// required, and the controller address gains the `http://` scheme.
pub fn make_config(controller: Option<String>, secret: Option<String>) -> (r: Result<
    DaemonConfig,
    ConfigError,
>)
    ensures
        match (controller, secret) {
            (Some(c), Some(s)) => r matches Ok(cfg) && cfg.controller_url@ == "http://"@ + c@
                && cfg.secret == Some(s),
            _ => r == Err::<DaemonConfig, ConfigError>(ConfigError::MissingField),
        },
{
    match (controller, secret) {
        (Some(c), Some(s)) => {
            let mut url = String::from_str("http://");
            url.append(c.as_str());
            Ok(DaemonConfig { controller_url: url, secret: Some(s) })
        },
        _ => Err(ConfigError::MissingField),
    }
}

/// Extract the daemon configuration from the text of the configuration
/// document: an unparsable document is malformed; an absent or non-string
/// required field is a missing field; with both fields present the
/// configuration holds the controller address as an `http://` URL and the
/// secret as given.
pub fn load_config(text: &str) -> (r: Result<DaemonConfig, ConfigError>)
    ensures
        !json_parses_of(text@) ==> r == Err::<DaemonConfig, ConfigError>(ConfigError::Malformed),
        json_parses_of(text@) ==> match (controller_of(text@), secret_of(text@)) {
            (Some(c), Some(s)) => r matches Ok(cfg) && cfg.controller_url@ == "http://"@ + c && (
            cfg.secret matches Some(sec) && sec@ == s),
            _ => r == Err::<DaemonConfig, ConfigError>(ConfigError::MissingField),
        },
{
    let doc = match parse_document(text) {
        Ok(d) => d,
        Err(_) => {
            return Err(ConfigError::Malformed);
        },
    };
    let controller = document_controller(&doc);
    let secret = document_secret(&doc);
    make_config(controller, secret)
}

} // verus!
