//! A configuration loader: turns a text blob in one of two recognized
//! formats into a structured record, or reports a parse error tagged by the
//! format that failed.
//!
//! The parsing itself is the work of an outside deserialization library,
//! specified at its interface: its outcomes are deterministic in the text,
//! so they are given names that the contracts here speak of. The record
//! assembly — locating the four fields, checking that the port fits its
//! range — is verified against those names.

use vstd::prelude::*;

verus! {

/// The structured record a configuration text describes.
#[derive(Debug)]
pub struct Config {
    pub port: u16,
    pub base_url: String,
    pub s3_path: String,
    pub database_url: String,
}

#[verifier::external_type_specification]
#[verifier::external_body]
pub struct ExJsonValue(serde_json::Value);

#[verifier::external_type_specification]
#[verifier::external_body]
pub struct ExJsonError(serde_json::Error);

#[verifier::external_type_specification]
#[verifier::external_body]
pub struct ExYamlValue(serde_yaml::Value);

#[verifier::external_type_specification]
#[verifier::external_body]
pub struct ExYamlError(serde_yaml::Error);

/// Configuration deserialization error, tagged by the format that failed.
#[derive(Debug)]
pub enum ConfigError {
    /// Something went wrong deserializing JSON.
    Json(serde_json::Error),
    /// Something went wrong deserializing YAML.
    Yaml(serde_yaml::Error),
}

// Names for what the outside JSON functions return. Each call below is
// deterministic in its arguments, so its result is a function of them;
// nothing is assumed of the values behind these names beyond the links
// stated at the trusted functions that apply them.
//
// Whether the text parses as a JSON document.
pub uninterp spec fn json_doc_ok(s: Seq<char>) -> bool;

// The four-field record carried by the JSON document the text parses into.
pub uninterp spec fn json_doc_record(s: Seq<char>) -> Option<(u16, Seq<char>, Seq<char>, Seq<char>)>;

// The integer reading of a named field of a parsed value: none when the
// field is absent or not an integer.
pub uninterp spec fn json_field_u64(v: serde_json::Value, key: Seq<char>) -> Option<u64>;

// The text reading of a named field of a parsed value: none when the field
// is absent or not a string.
pub uninterp spec fn json_field_str(v: serde_json::Value, key: Seq<char>) -> Option<Seq<char>>;

// The integer reading of a parsed value itself.
pub uninterp spec fn json_u64_of(v: serde_json::Value) -> Option<u64>;

// The text reading of a parsed value itself.
pub uninterp spec fn json_str_of(v: serde_json::Value) -> Option<Seq<char>>;

/// The record a parsed JSON document carries: present exactly when `port`
/// is an integer that fits the port range and the three remaining fields
/// are text.
pub open spec fn json_record_of(v: serde_json::Value) -> Option<
    (u16, Seq<char>, Seq<char>, Seq<char>),
> {
    match json_field_u64(v, "port"@) {
        Option::None => Option::None,
        Option::Some(raw) => if raw > u16::MAX as u64 {
            Option::None
        } else {
            match (
                json_field_str(v, "base_url"@),
                json_field_str(v, "s3_path"@),
                json_field_str(v, "database_url"@),
            ) {
                (Option::Some(b), Option::Some(s3), Option::Some(db)) => Option::Some(
                    (raw as u16, b, s3, db),
                ),
                _ => Option::None,
            }
        },
    }
}

/// Relies on serde_json::from_str: parses the text as a JSON document,
/// `Err` exactly when the text is not valid JSON. The parse reads nothing
/// but the text, so whether it succeeds and the record its document
/// carries are the named functions of the text alone.
#[verifier::external_body]
fn parse_json_text(contents: &str) -> (r: Result<serde_json::Value, serde_json::Error>)
    ensures
        r is Ok <==> json_doc_ok(contents@),
        r matches Ok(v) ==> json_record_of(v) == json_doc_record(contents@),
{
    serde_json::from_str(contents)
}

/// Relies on serde_json::Value::get: `Some` of the field's value exactly
/// when the value is an object with that key. The lookup reads nothing but
/// the value and the key: a found field hands its own readings on as the
/// field's readings, and a missing one has no readings.
#[verifier::external_body]
fn json_field<'a>(value: &'a serde_json::Value, key: &str) -> (r: Option<&'a serde_json::Value>)
    ensures
        r is None ==> json_field_u64(*value, key@) is None && json_field_str(*value, key@)
            is None,
        r matches Some(f) ==> json_field_u64(*value, key@) == json_u64_of(*f) && json_field_str(
            *value,
            key@,
        ) == json_str_of(*f),
{
    value.get(key)
}

/// Relies on serde_json::Value::as_u64: `Some` of the number exactly when
/// the value is an integer representable as a u64; the reading depends on
/// the value alone and bears the name `json_u64_of`.
#[verifier::external_body]
fn json_as_u64(value: &serde_json::Value) -> (r: Option<u64>)
    ensures
        r == json_u64_of(*value),
{
    value.as_u64()
}

/// Relies on serde_json::Value::as_str: `Some` of the text exactly when
/// the value is a string; the reading depends on the value alone and bears
/// the name `json_str_of`.
#[verifier::external_body]
fn json_as_str<'a>(value: &'a serde_json::Value) -> (r: Option<&'a str>)
    ensures
        r is Some <==> json_str_of(*value) is Some,
        r matches Some(t) ==> json_str_of(*value) == Some(t@),
{
    value.as_str()
}

/// Relies on serde's de::Error::custom: builds a JSON error value that
/// carries the given message.
#[verifier::external_body]
fn json_custom_error(msg: &str) -> (r: serde_json::Error) {
    <serde_json::Error as serde::de::Error>::custom(msg)
}

// Names for what the outside YAML functions return, exactly as for JSON.
//
// Whether the text parses as a YAML document.
pub uninterp spec fn yaml_doc_ok(s: Seq<char>) -> bool;

// The four-field record carried by the YAML document the text parses into.
pub uninterp spec fn yaml_doc_record(s: Seq<char>) -> Option<(u16, Seq<char>, Seq<char>, Seq<char>)>;

// The integer reading of a named field of a parsed value.
pub uninterp spec fn yaml_field_u64(v: serde_yaml::Value, key: Seq<char>) -> Option<u64>;

// The text reading of a named field of a parsed value.
pub uninterp spec fn yaml_field_str(v: serde_yaml::Value, key: Seq<char>) -> Option<Seq<char>>;

// The integer reading of a parsed value itself.
pub uninterp spec fn yaml_u64_of(v: serde_yaml::Value) -> Option<u64>;

// The text reading of a parsed value itself.
pub uninterp spec fn yaml_str_of(v: serde_yaml::Value) -> Option<Seq<char>>;

/// The record a parsed YAML document carries: present exactly when `port`
/// is an integer that fits the port range and the three remaining fields
/// are text.
pub open spec fn yaml_record_of(v: serde_yaml::Value) -> Option<
    (u16, Seq<char>, Seq<char>, Seq<char>),
> {
    match yaml_field_u64(v, "port"@) {
        Option::None => Option::None,
        Option::Some(raw) => if raw > u16::MAX as u64 {
            Option::None
        } else {
            match (
                yaml_field_str(v, "base_url"@),
                yaml_field_str(v, "s3_path"@),
                yaml_field_str(v, "database_url"@),
            ) {
                (Option::Some(b), Option::Some(s3), Option::Some(db)) => Option::Some(
                    (raw as u16, b, s3, db),
                ),
                _ => Option::None,
            }
        },
    }
}

/// Relies on serde_yaml::from_str: parses the text as a YAML document,
/// `Err` exactly when the text is not valid YAML. The parse reads nothing
/// but the text, so whether it succeeds and the record its document
/// carries are the named functions of the text alone.
#[verifier::external_body]
fn parse_yaml_text(contents: &str) -> (r: Result<serde_yaml::Value, serde_yaml::Error>)
    ensures
        r is Ok <==> yaml_doc_ok(contents@),
        r matches Ok(v) ==> yaml_record_of(v) == yaml_doc_record(contents@),
{
    serde_yaml::from_str(contents)
}

/// Relies on serde_yaml::Value::get: `Some` of the field's value exactly
/// when the value is a mapping with that key. The lookup reads nothing but
/// the value and the key: a found field hands its own readings on as the
/// field's readings, and a missing one has no readings.
#[verifier::external_body]
fn yaml_field<'a>(value: &'a serde_yaml::Value, key: &str) -> (r: Option<&'a serde_yaml::Value>)
    ensures
        r is None ==> yaml_field_u64(*value, key@) is None && yaml_field_str(*value, key@)
            is None,
        r matches Some(f) ==> yaml_field_u64(*value, key@) == yaml_u64_of(*f) && yaml_field_str(
            *value,
            key@,
        ) == yaml_str_of(*f),
{
    value.get(key)
}

/// Relies on serde_yaml::Value::as_u64: `Some` of the number exactly when
/// the value is an integer representable as a u64; the reading depends on
/// the value alone and bears the name `yaml_u64_of`.
#[verifier::external_body]
fn yaml_as_u64(value: &serde_yaml::Value) -> (r: Option<u64>)
    ensures
        r == yaml_u64_of(*value),
{
    value.as_u64()
}

/// Relies on serde_yaml::Value::as_str: `Some` of the text exactly when
/// the value is a string; the reading depends on the value alone and bears
/// the name `yaml_str_of`.
#[verifier::external_body]
fn yaml_as_str<'a>(value: &'a serde_yaml::Value) -> (r: Option<&'a str>)
    ensures
        r is Some <==> yaml_str_of(*value) is Some,
        r matches Some(t) ==> yaml_str_of(*value) == Some(t@),
{
    value.as_str()
}

/// Relies on serde's de::Error::custom: builds a YAML error value that
/// carries the given message.
#[verifier::external_body]
fn yaml_custom_error(msg: &str) -> (r: serde_yaml::Error) {
    <serde_yaml::Error as serde::de::Error>::custom(msg)
}

/// The port number a raw integer field denotes: the number itself when it
/// fits the port range, nothing otherwise.
pub fn port_from_u64(raw: u64) -> (r: Option<u16>)
    ensures
        raw <= u16::MAX as u64 ==> r == Some(raw as u16),
        raw > u16::MAX as u64 ==> r is None,
{
    if raw <= u16::MAX as u64 {
        Some(raw as u16)
    } else {
        None
    }
}

/// Assembles the record from a parsed JSON document: exactly the record
/// the document carries, nothing when a field is missing or ill-typed or
/// the port does not fit its range.
fn config_from_json(value: &serde_json::Value) -> (r: Option<Config>)
    ensures
        r is Some <==> json_record_of(*value) is Some,
        r matches Some(c) ==> json_record_of(*value) == Some(
            (c.port, c.base_url@, c.s3_path@, c.database_url@),
        ),
{
    let raw_port = match json_field(value, "port") {
        Some(f) => match json_as_u64(f) {
            Some(p) => p,
            None => {
                return None;
            },
        },
        None => {
            return None;
        },
    };
    let port = match port_from_u64(raw_port) {
        Some(p) => p,
        None => {
            return None;
        },
    };
    let base_url = match json_field(value, "base_url") {
        Some(f) => match json_as_str(f) {
            Some(s) => s.to_owned(),
            None => {
                return None;
            },
        },
        None => {
            return None;
        },
    };
    let s3_path = match json_field(value, "s3_path") {
        Some(f) => match json_as_str(f) {
            Some(s) => s.to_owned(),
            None => {
                return None;
            },
        },
        None => {
            return None;
        },
    };
    let database_url = match json_field(value, "database_url") {
        Some(f) => match json_as_str(f) {
            Some(s) => s.to_owned(),
            None => {
                return None;
            },
        },
        None => {
            return None;
        },
    };
    Some(Config { port, base_url, s3_path, database_url })
}

/// Assembles the record from a parsed YAML document: exactly the record
/// the document carries, nothing when a field is missing or ill-typed or
/// the port does not fit its range.
fn config_from_yaml(value: &serde_yaml::Value) -> (r: Option<Config>)
    ensures
        r is Some <==> yaml_record_of(*value) is Some,
        r matches Some(c) ==> yaml_record_of(*value) == Some(
            (c.port, c.base_url@, c.s3_path@, c.database_url@),
        ),
{
    let raw_port = match yaml_field(value, "port") {
        Some(f) => match yaml_as_u64(f) {
            Some(p) => p,
            None => {
                return None;
            },
        },
        None => {
            return None;
        },
    };
    let port = match port_from_u64(raw_port) {
        Some(p) => p,
        None => {
            return None;
        },
    };
    let base_url = match yaml_field(value, "base_url") {
        Some(f) => match yaml_as_str(f) {
            Some(s) => s.to_owned(),
            None => {
                return None;
            },
        },
        None => {
            return None;
        },
    };
    let s3_path = match yaml_field(value, "s3_path") {
        Some(f) => match yaml_as_str(f) {
            Some(s) => s.to_owned(),
            None => {
                return None;
            },
        },
        None => {
            return None;
        },
    };
    let database_url = match yaml_field(value, "database_url") {
        Some(f) => match yaml_as_str(f) {
            Some(s) => s.to_owned(),
            None => {
                return None;
            },
        },
        None => {
            return None;
        },
    };
    Some(Config { port, base_url, s3_path, database_url })
}

/// A reader for one configuration format. Each reader owes the record its
/// own format finds in the text — `ok_spec` — and an error it reports
/// carries its own format tag.
pub trait ConfigDeserializer {
    /// Which error tag this reader reports.
    spec fn tags(&self, e: ConfigError) -> bool;

    /// The record this reader owes for a given text: present exactly when
    /// the text parses in this reader's format and its document carries the
    /// four fields.
    spec fn ok_spec(&self, s: Seq<char>) -> Option<(u16, Seq<char>, Seq<char>, Seq<char>)>;

    /// Deserialize the contents into a `Config`: the record the text
    /// carries in this reader's format, or an error tagged by this
    /// reader's format.
    fn deserialize(&self, contents: &str) -> (r: Result<Config, ConfigError>)
        ensures
            r is Ok <==> self.ok_spec(contents@) is Some,
            r matches Ok(c) ==> self.ok_spec(contents@) == Some(
                (c.port, c.base_url@, c.s3_path@, c.database_url@),
            ),
            r matches Err(e) ==> self.tags(e),
    ;
}

/// The JSON reader.
pub struct JsonDeserializer {}

impl JsonDeserializer {
    pub fn new() -> Self {
        Self {  }
    }
}

impl ConfigDeserializer for JsonDeserializer {
    open spec fn tags(&self, e: ConfigError) -> bool {
        e is Json
    }

    open spec fn ok_spec(&self, s: Seq<char>) -> Option<(u16, Seq<char>, Seq<char>, Seq<char>)> {
        if json_doc_ok(s) {
            json_doc_record(s)
        } else {
            None
        }
    }

    fn deserialize(&self, contents: &str) -> (r: Result<Config, ConfigError>) {
        match parse_json_text(contents) {
            Ok(value) => match config_from_json(&value) {
                Some(config) => Ok(config),
                None => Err(
                    ConfigError::Json(json_custom_error("missing or ill-typed configuration field")),
                ),
            },
            Err(e) => Err(ConfigError::Json(e)),
        }
    }
}

/// The YAML reader.
pub struct YmlDeserializer {}

impl YmlDeserializer {
    pub fn new() -> Self {
        Self {  }
    }
}

impl ConfigDeserializer for YmlDeserializer {
    open spec fn tags(&self, e: ConfigError) -> bool {
        e is Yaml
    }

    open spec fn ok_spec(&self, s: Seq<char>) -> Option<(u16, Seq<char>, Seq<char>, Seq<char>)> {
        if yaml_doc_ok(s) {
            yaml_doc_record(s)
        } else {
            None
        }
    }

    fn deserialize(&self, contents: &str) -> (r: Result<Config, ConfigError>) {
        match parse_yaml_text(contents) {
            Ok(value) => match config_from_yaml(&value) {
                Some(config) => Ok(config),
                None => Err(
                    ConfigError::Yaml(yaml_custom_error("missing or ill-typed configuration field")),
                ),
            },
            Err(e) => Err(ConfigError::Yaml(e)),
        }
    }
}

/// Reads a configuration text with the given reader: hands back exactly
/// that reader's result — the record the reader owes for the text, or an
/// error carrying the reader's format tag.
pub fn deserialize_config<D: ConfigDeserializer>(deserializer: &D, contents: &str) -> (r: Result<
    Config,
    ConfigError,
>)
    ensures
        r is Ok <==> deserializer.ok_spec(contents@) is Some,
        r matches Ok(c) ==> deserializer.ok_spec(contents@) == Some(
            (c.port, c.base_url@, c.s3_path@, c.database_url@),
        ),
        r matches Err(e) ==> deserializer.tags(e),
{
    deserializer.deserialize(contents)
}

} // verus!
