//! Tenant settings: the per-request configuration decoded from the one
//! designated configuration header.

use vstd::prelude::*;
use crate::adapter::RequestEnvelope;
use crate::headers::{HeaderMap, HeadersModel, values_of};
use crate::json::{FieldLookup, get_str_field, json_object_wf, json_str_field};
use vstd::string::StringExecFns;

verus! {

/// The per-request tenant configuration, immutable once constructed.
#[derive(Debug)]
pub struct Settings {
    pub api_key: String,
    pub template_id: String,
}

/// Why tenant settings could not be extracted from a header map.
#[derive(Debug)]
pub enum ConfigError {
    /// The configuration header is absent.
    Missing,
    /// The configuration header occurs more than once; ambiguous
    /// configuration is rejected rather than silently resolved.
    Ambiguous,
    /// The header's one value is not a well-formed JSON object.
    InvalidJson,
    /// A required field is absent or not a string; carries the field name.
    MissingField(String),
}

/// The name of the required configuration header.
pub open spec fn settings_header_name() -> Seq<char> {
    "x-edgee-component-settings"@
}

/// The values a header map carries for the configuration header.
pub open spec fn settings_values(m: HeadersModel) -> Seq<Seq<char>> {
    values_of(m, settings_header_name())
}

/// Whether a header map yields tenant settings: the configuration header
/// occurs exactly once, its value is a well-formed JSON object, and both
/// required fields are strings.
pub open spec fn settings_ok(m: HeadersModel) -> bool {
    &&& settings_values(m).len() == 1
    &&& json_object_wf(settings_values(m)[0])
    &&& json_str_field(settings_values(m)[0], "api_key"@) is Some
    &&& json_str_field(settings_values(m)[0], "template_id"@) is Some
}

/// The API key a header map yields (meaningful only under `settings_ok`).
pub open spec fn settings_api_key(m: HeadersModel) -> Seq<char> {
    json_str_field(settings_values(m)[0], "api_key"@)->Some_0
}

/// The template id a header map yields (meaningful only under
/// `settings_ok`).
pub open spec fn settings_template_id(m: HeadersModel) -> Seq<char> {
    json_str_field(settings_values(m)[0], "template_id"@)->Some_0
}

impl ConfigError {
    /// The message a configuration failure is described by.
    pub open spec fn message_spec(&self) -> Seq<char> {
        match self {
            ConfigError::Missing => "Missing 'x-edgee-component-settings' header"@,
            ConfigError::Ambiguous => "Ambiguous 'x-edgee-component-settings' header"@,
            ConfigError::InvalidJson => "Failed to parse component settings JSON"@,
            ConfigError::MissingField(name) => "Missing "@ + name@ + " setting"@,
        }
    }

    /// Describe the failure.
    pub fn message(&self) -> (r: String)
        ensures
            r@ == self.message_spec(),
    {
        match self {
            ConfigError::Missing => "Missing 'x-edgee-component-settings' header".to_owned(),
            ConfigError::Ambiguous => "Ambiguous 'x-edgee-component-settings' header".to_owned(),
            ConfigError::InvalidJson => "Failed to parse component settings JSON".to_owned(),
            ConfigError::MissingField(name) => {
                "Missing ".to_owned().concat(name.as_str()).concat(" setting")
            },
        }
    }
}

impl Settings {
    /// Extract the tenant settings from a header map: the configuration
    /// header must occur exactly once, and its value must be a JSON object
    /// whose `api_key` and `template_id` fields are strings. Every way this
    /// can fail is mapped to its own error, and nothing else fails.
    pub fn new(headers: &HeaderMap) -> (r: Result<Settings, ConfigError>)
        requires
            headers.wf(),
        ensures
            settings_values(headers@).len() == 0 ==> (r is Err && r->Err_0 is Missing),
            settings_values(headers@).len() > 1 ==> (r is Err && r->Err_0 is Ambiguous),
            (settings_values(headers@).len() == 1 && !json_object_wf(
                settings_values(headers@)[0],
            )) ==> (r is Err && r->Err_0 is InvalidJson),
            (settings_values(headers@).len() == 1 && json_object_wf(settings_values(headers@)[0])
                && json_str_field(settings_values(headers@)[0], "api_key"@) is None) ==> (r is Err
                && r->Err_0 is MissingField && (r->Err_0)->MissingField_0@ == "api_key"@),
            (settings_values(headers@).len() == 1 && json_object_wf(settings_values(headers@)[0])
                && json_str_field(settings_values(headers@)[0], "api_key"@) is Some
                && json_str_field(settings_values(headers@)[0], "template_id"@) is None) ==> (
            r is Err && r->Err_0 is MissingField && (r->Err_0)->MissingField_0@
                == "template_id"@),
            (r is Ok) <==> settings_ok(headers@),
            (r is Ok) ==> (r->Ok_0).api_key@ == settings_api_key(headers@),
            (r is Ok) ==> (r->Ok_0).template_id@ == settings_template_id(headers@),
    {
        let found = headers.get_all("x-edgee-component-settings");
        match found {
            None => Err(ConfigError::Missing),
            Some(vals) => {
                if vals.len() == 0 {
                    // An entry never carries zero values, but nothing above
                    // rules it out; an empty entry means the header is absent.
                    proof {
                        assert(vals.deep_view().len() == 0);
                    }
                    Err(ConfigError::Missing)
                } else if vals.len() > 1 {
                    proof {
                        assert(vals.deep_view().len() > 1);
                    }
                    Err(ConfigError::Ambiguous)
                } else {
                    proof {
                        assert(vals.deep_view().len() == 1);
                        assert(vals.deep_view()[0] == vals@[0]@);
                    }
                    let value = &vals[0];
                    match get_str_field(value.as_str(), "api_key") {
                        FieldLookup::NotObject => Err(ConfigError::InvalidJson),
                        FieldLookup::NoString => Err(
                            ConfigError::MissingField("api_key".to_owned()),
                        ),
                        FieldLookup::Found(api_key) => {
                            match get_str_field(value.as_str(), "template_id") {
                                FieldLookup::NotObject => Err(ConfigError::InvalidJson),
                                FieldLookup::NoString => Err(
                                    ConfigError::MissingField("template_id".to_owned()),
                                ),
                                FieldLookup::Found(template_id) => Ok(
                                    Settings { api_key, template_id },
                                ),
                            }
                        },
                    }
                }
            },
        }
    }

    /// Extract the tenant settings from a whole request envelope: the same
    /// contract as extraction from its header map.
    pub fn from_req(req: &RequestEnvelope) -> (r: Result<Settings, ConfigError>)
        requires
            req.wf(),
        ensures
            settings_values(req.headers@).len() == 0 ==> (r is Err && r->Err_0 is Missing),
            settings_values(req.headers@).len() > 1 ==> (r is Err && r->Err_0 is Ambiguous),
            (settings_values(req.headers@).len() == 1 && !json_object_wf(
                settings_values(req.headers@)[0],
            )) ==> (r is Err && r->Err_0 is InvalidJson),
            (r is Err && r->Err_0 is MissingField) ==> settings_values(req.headers@).len() == 1,
            (r is Ok) <==> settings_ok(req.headers@),
            (r is Ok) ==> (r->Ok_0).api_key@ == settings_api_key(req.headers@),
            (r is Ok) ==> (r->Ok_0).template_id@ == settings_template_id(req.headers@),
    {
        Settings::new(&req.headers)
    }
}

} // verus!
