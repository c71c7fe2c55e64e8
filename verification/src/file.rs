//! The settings file: a YAML mapping with the optional keys `address`,
//! `port` and `password`.
//!
//! A document is first reduced to what these three keys hold, as plain
//! values; the settings are then read from those.

use vstd::prelude::*;
use crate::config::{empty_layer, resolve, resolved, Config, ConfigFile, LayerView, Overrides};
use crate::yaml::{
    as_text, as_unsigned, entry, error_message, is_mapping, is_null, parse_document, yaml_entry,
    yaml_is_mapping, yaml_is_null, yaml_parsed, yaml_text, yaml_u64,
};

verus! {

/// One of the three settings.
#[derive(Clone, Copy, Debug, PartialEq, Eq, Structural)]
pub enum Field {
    Address,
    Port,
    Password,
}

/// Why a settings file is refused.
#[derive(Clone, Debug, PartialEq, Eq)]
pub enum ConfigError {
    /// The text is not a YAML document; `message` is the reader's complaint.
    Syntax { message: String },
    /// The document is neither empty nor a mapping.
    NotAMapping,
    /// The key is there, and its value has the wrong type or is out of range.
    InvalidField { field: Field },
}

/// A `ConfigError` without the reader's words.
pub enum ErrorKind {
    Syntax,
    NotAMapping,
    InvalidField(Field),
}

impl View for ConfigError {
    type V = ErrorKind;

    open spec fn view(&self) -> ErrorKind {
        match *self {
            ConfigError::Syntax { .. } => ErrorKind::Syntax,
            ConfigError::NotAMapping => ErrorKind::NotAMapping,
            ConfigError::InvalidField { field } => ErrorKind::InvalidField(field),
        }
    }
}

/// What is wrong with the value of a key, in words.
pub open spec fn complaint(field: Field) -> Seq<char> {
    match field {
        Field::Address => "address: expected a string"@,
        Field::Port => "port: expected an integer from 0 to 65535"@,
        Field::Password => "password: expected a string"@,
    }
}

impl ConfigError {
    /// The error in words, for the user.
    pub fn message(&self) -> (r: String)
        ensures
            r@ == match *self {
                ConfigError::Syntax { message } => message@,
                ConfigError::NotAMapping => "the configuration file is not a mapping"@,
                ConfigError::InvalidField { field } => complaint(field),
            },
    {
        match self {
            ConfigError::Syntax { message } => message.clone(),
            ConfigError::NotAMapping => "the configuration file is not a mapping".to_owned(),
            ConfigError::InvalidField { field } => match field {
                Field::Address => "address: expected a string".to_owned(),
                Field::Port => "port: expected an integer from 0 to 65535".to_owned(),
                Field::Password => "password: expected a string".to_owned(),
            },
        }
    }
}

/// What a document holds under one key.
#[derive(Clone, Debug, PartialEq, Eq)]
pub enum RawValue {
    /// The key is not there.
    Absent,
    /// The key is there with a null value.
    Null,
    /// A string.
    Text(String),
    /// An integer that is not negative and fits 64 bits.
    Integer(u64),
    /// Anything else: a boolean, another number, a sequence, a mapping.
    Other,
}

/// What a `RawValue` stands for.
pub enum RawValueView {
    Absent,
    Null,
    Text(Seq<char>),
    Integer(u64),
    Other,
}

impl View for RawValue {
    type V = RawValueView;

    open spec fn view(&self) -> RawValueView {
        match *self {
            RawValue::Absent => RawValueView::Absent,
            RawValue::Null => RawValueView::Null,
            RawValue::Text(s) => RawValueView::Text(s@),
            RawValue::Integer(n) => RawValueView::Integer(n),
            RawValue::Other => RawValueView::Other,
        }
    }
}

/// A document, as far as the settings go.
#[derive(Clone, Debug, PartialEq, Eq)]
pub enum RawDocument {
    /// An empty document, or one that is null.
    Empty,
    /// A mapping, with what it holds under the three keys.
    Mapping { address: RawValue, port: RawValue, password: RawValue },
    /// A scalar or a sequence.
    Other,
}

/// What a `RawDocument` stands for.
pub enum RawDocumentView {
    Empty,
    Mapping { address: RawValueView, port: RawValueView, password: RawValueView },
    Other,
}

impl View for RawDocument {
    type V = RawDocumentView;

    open spec fn view(&self) -> RawDocumentView {
        match *self {
            RawDocument::Empty => RawDocumentView::Empty,
            RawDocument::Mapping { address, port, password } => RawDocumentView::Mapping {
                address: address@,
                port: port@,
                password: password@,
            },
            RawDocument::Other => RawDocumentView::Other,
        }
    }
}

/// The kind of one YAML value: null before string before integer.
pub open spec fn value_kind(value: serde_yaml::Value) -> RawValueView {
    if yaml_is_null(value) {
        RawValueView::Null
    } else if yaml_text(value) is Some {
        RawValueView::Text(yaml_text(value).unwrap())
    } else if yaml_u64(value) is Some {
        RawValueView::Integer(yaml_u64(value).unwrap())
    } else {
        RawValueView::Other
    }
}

/// What a document holds under a key.
pub open spec fn field_kind(doc: serde_yaml::Value, key: Seq<char>) -> RawValueView {
    match yaml_entry(doc, key) {
        Some(value) => value_kind(value),
        None => RawValueView::Absent,
    }
}

/// A document reduced to the three keys.
pub open spec fn document_kind(doc: serde_yaml::Value) -> RawDocumentView {
    if yaml_is_null(doc) {
        RawDocumentView::Empty
    } else if yaml_is_mapping(doc) {
        RawDocumentView::Mapping {
            address: field_kind(doc, "address"@),
            port: field_kind(doc, "port"@),
            password: field_kind(doc, "password"@),
        }
    } else {
        RawDocumentView::Other
    }
}

/// A string setting: left out where the key is absent or null, refused
/// where the value is no string.
pub open spec fn text_setting(value: RawValueView) -> Option<Option<Seq<char>>> {
    match value {
        RawValueView::Absent => Some(None),
        RawValueView::Null => Some(None),
        RawValueView::Text(s) => Some(Some(s)),
        _ => None,
    }
}

/// The port: left out where the key is absent or null, refused where the
/// value is no integer from 0 to 65535.
pub open spec fn port_setting(value: RawValueView) -> Option<Option<u16>> {
    match value {
        RawValueView::Absent => Some(None),
        RawValueView::Null => Some(None),
        RawValueView::Integer(n) => if n <= 65535 {
            Some(Some(n as u16))
        } else {
            None
        },
        _ => None,
    }
}

/// The settings that a document gives, or why it is refused. The first key
/// at fault, in the order address, port, password, is the one reported.
pub open spec fn settings_of(doc: RawDocumentView) -> Result<LayerView, ErrorKind> {
    match doc {
        RawDocumentView::Empty => Ok(LayerView { address: None, port: None, password: None }),
        RawDocumentView::Other => Err(ErrorKind::NotAMapping),
        RawDocumentView::Mapping { address, port, password } => {
            if text_setting(address) is None {
                Err(ErrorKind::InvalidField(Field::Address))
            } else if port_setting(port) is None {
                Err(ErrorKind::InvalidField(Field::Port))
            } else if text_setting(password) is None {
                Err(ErrorKind::InvalidField(Field::Password))
            } else {
                Ok(
                    LayerView {
                        address: text_setting(address).unwrap(),
                        port: port_setting(port).unwrap(),
                        password: text_setting(password).unwrap(),
                    },
                )
            }
        },
    }
}

/// The settings that a text gives: those of the document it parses to.
pub open spec fn parsed_settings(text: Seq<char>) -> Result<LayerView, ErrorKind> {
    match yaml_parsed(text) {
        Some(doc) => settings_of(document_kind(doc)),
        None => Err(ErrorKind::Syntax),
    }
}

/// The views of a result of reading a file.
pub open spec fn outcome_view(r: Result<ConfigFile, ConfigError>) -> Result<LayerView, ErrorKind> {
    match r {
        Ok(file) => Ok(file@),
        Err(e) => Err(e@),
    }
}

/// Tells what kind of value a YAML value is.
pub fn classify_value(value: &serde_yaml::Value) -> (r: RawValue)
    ensures
        r@ == value_kind(*value),
{
    if is_null(value) {
        return RawValue::Null;
    }
    match as_text(value) {
        Some(s) => RawValue::Text(s.to_owned()),
        None => match as_unsigned(value) {
            Some(n) => RawValue::Integer(n),
            None => RawValue::Other,
        },
    }
}

/// Reads what a document holds under a key.
pub fn read_field(doc: &serde_yaml::Value, key: &str) -> (r: RawValue)
    ensures
        r@ == field_kind(*doc, key@),
{
    match entry(doc, key) {
        Some(value) => classify_value(value),
        None => RawValue::Absent,
    }
}

/// Reduces a document to what it holds under the three keys. Other keys are
/// not looked at.
pub fn read_document(doc: &serde_yaml::Value) -> (r: RawDocument)
    ensures
        r@ == document_kind(*doc),
{
    if is_null(doc) {
        RawDocument::Empty
    } else if is_mapping(doc) {
        RawDocument::Mapping {
            address: read_field(doc, "address"),
            port: read_field(doc, "port"),
            password: read_field(doc, "password"),
        }
    } else {
        RawDocument::Other
    }
}

/// Reads a string setting.
fn read_text(value: RawValue) -> (r: Option<Option<String>>)
    ensures
        match r {
            Some(t) => text_setting(value@) == Some(crate::config::text_of(t)),
            None => text_setting(value@) is None,
        },
{
    match value {
        RawValue::Absent => Some(None),
        RawValue::Null => Some(None),
        RawValue::Text(s) => Some(Some(s)),
        _ => None,
    }
}

/// Reads the port.
fn read_port(value: RawValue) -> (r: Option<Option<u16>>)
    ensures
        r == port_setting(value@),
{
    match value {
        RawValue::Absent => Some(None),
        RawValue::Null => Some(None),
        RawValue::Integer(n) => if n <= 65535 {
            Some(Some(n as u16))
        } else {
            None
        },
        _ => None,
    }
}

impl ConfigFile {
    /// Reads the settings from a reduced document. An empty document sets
    /// nothing; a scalar or a sequence is refused; in a mapping each key may
    /// be absent or null, and is refused where its value has the wrong type.
    pub fn from_raw(doc: RawDocument) -> (r: Result<ConfigFile, ConfigError>)
        ensures
            outcome_view(r) == settings_of(doc@),
    {
        match doc {
            RawDocument::Empty => Ok(ConfigFile::empty()),
            RawDocument::Other => Err(ConfigError::NotAMapping),
            RawDocument::Mapping { address, port, password } => {
                let address = match read_text(address) {
                    Some(a) => a,
                    None => {
                        return Err(ConfigError::InvalidField { field: Field::Address });
                    },
                };
                let port = match read_port(port) {
                    Some(p) => p,
                    None => {
                        return Err(ConfigError::InvalidField { field: Field::Port });
                    },
                };
                let password = match read_text(password) {
                    Some(p) => p,
                    None => {
                        return Err(ConfigError::InvalidField { field: Field::Password });
                    },
                };
                Ok(ConfigFile { address, port, password })
            },
        }
    }
}

/// Reads the settings from the text of a file. A text that is no YAML
/// document gives `Syntax`; any other gives what its document holds.
pub fn parse_config_file(text: &str) -> (r: Result<ConfigFile, ConfigError>)
    ensures
        outcome_view(r) == parsed_settings(text@),
{
    match parse_document(text) {
        Ok(doc) => ConfigFile::from_raw(read_document(&doc)),
        Err(e) => Err(ConfigError::Syntax { message: error_message(&e) }),
    }
}

/// Resolves the effective settings. `file_text` is the text of the settings
/// file, `None` where there is no file: that is no error. A file that is
/// refused ends the resolution with its error, whatever the flags hold.
pub fn resolve_with_file(defaults: Config, file_text: Option<&str>, flags: Overrides) -> (r: Result<
    Config,
    ConfigError,
>)
    ensures
        match file_text {
            None => r is Ok && r.unwrap()@ == resolved(defaults@, empty_layer(), flags@),
            Some(text) => match parsed_settings(text@) {
                Ok(layer) => r is Ok && r.unwrap()@ == resolved(defaults@, layer, flags@),
                Err(kind) => r is Err && r.unwrap_err()@ == kind,
            },
        },
{
    match file_text {
        None => Ok(resolve(defaults, None, flags)),
        Some(text) => match parse_config_file(text) {
            Ok(file) => Ok(resolve(defaults, Some(file), flags)),
            Err(e) => Err(e),
        },
    }
}

} // verus!
