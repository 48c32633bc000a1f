//! The resolved configuration: backend selection and per-backend parameters,
//! fixed for the lifetime of the process and shared read-only.

use vstd::prelude::*;
use vstd::string::StringExecFns;

use crate::jsonio::{
    bool_field_of, is_json_object_of, json_bool_field, json_is_object, json_str_field,
    json_u64_field, str_field_of, u64_field_of,
};

verus! {

/// The token budget used when the configuration names none.
pub const DEFAULT_MAX_TOKENS: u32 = 64;

/// Backend selection and per-backend parameters.
#[derive(Debug)]
pub struct Config {
    /// Identifier passed verbatim to the backend; never empty.
    pub model_name: String,
    /// Absolute URL of the HTTP backend; required for the online backend,
    /// optional for the Ollama backend (which has a fixed fallback).
    pub endpoint: Option<String>,
    /// True selects a local backend, false the online one.
    pub use_local_model: bool,
    /// Which local backend to use: `python` for the subprocess helper,
    /// `ollama` for the local HTTP server. Consulted only when
    /// `use_local_model` is true.
    pub local_framework: Option<String>,
    /// Selects the request/response schema of the online backend.
    pub openai_compatible: bool,
    /// Token budget; `None` means [`DEFAULT_MAX_TOKENS`].
    pub max_tokens: Option<u32>,
    /// Secret attached as a bearer credential on online requests.
    pub api_key: Option<String>,
}

/// The mathematical shadow of [`Config`]: the same fields with strings
/// replaced by their character sequences.
pub ghost struct ConfigV {
    pub model_name: Seq<char>,
    pub endpoint: Option<Seq<char>>,
    pub use_local_model: bool,
    pub local_framework: Option<Seq<char>>,
    pub openai_compatible: bool,
    pub max_tokens: Option<u32>,
    pub api_key: Option<Seq<char>>,
}

impl View for Config {
    type V = ConfigV;

    open spec fn view(&self) -> ConfigV {
        ConfigV {
            model_name: self.model_name@,
            endpoint: match self.endpoint {
                Some(e) => Some(e@),
                None => None,
            },
            use_local_model: self.use_local_model,
            local_framework: match self.local_framework {
                Some(f) => Some(f@),
                None => None,
            },
            openai_compatible: self.openai_compatible,
            max_tokens: self.max_tokens,
            api_key: match self.api_key {
                Some(k) => Some(k@),
                None => None,
            },
        }
    }
}

impl ConfigV {
    /// What every loaded configuration guarantees: a model name is present,
    /// and the online backend has its endpoint.
    pub open spec fn wf(self) -> bool {
        &&& self.model_name.len() > 0
        &&& !self.use_local_model ==> self.endpoint is Some
    }

    /// The token budget, with the default applied.
    pub open spec fn max_tokens_or_default(self) -> u32 {
        match self.max_tokens {
            Some(n) => n,
            None => DEFAULT_MAX_TOKENS,
        }
    }
}

/// Why a configuration document was rejected.
#[derive(Clone, Copy, Debug, PartialEq, Eq, Structural)]
pub enum ConfigError {
    /// The document is not a JSON object.
    Malformed,
    /// `model_name` is absent, not a string, or empty.
    MissingModelName,
    /// `use_local_model` is absent or not a boolean.
    MissingBackendFlag,
    /// The online backend is selected but `openai_compatible` is absent.
    MissingSchemaFlag,
    /// The online backend is selected but `endpoint` is absent.
    MissingEndpoint,
    /// `max_tokens` does not fit in an unsigned 32-bit integer.
    MaxTokensTooLarge,
}

/// What a configuration document means: either the configuration it carries,
/// or the first reason it is rejected.
pub open spec fn parse_config_spec(doc: Seq<char>) -> Result<ConfigV, ConfigError> {
    let model = str_field_of(doc, "model_name"@);
    let ulm = bool_field_of(doc, "use_local_model"@);
    let oc = bool_field_of(doc, "openai_compatible"@);
    let ep = str_field_of(doc, "endpoint"@);
    let mt = u64_field_of(doc, "max_tokens"@);
    if !is_json_object_of(doc) {
        Err(ConfigError::Malformed)
    } else if model is None || model.unwrap().len() == 0 {
        Err(ConfigError::MissingModelName)
    } else if ulm is None {
        Err(ConfigError::MissingBackendFlag)
    } else if !ulm.unwrap() && oc is None {
        Err(ConfigError::MissingSchemaFlag)
    } else if !ulm.unwrap() && ep is None {
        Err(ConfigError::MissingEndpoint)
    } else if mt matches Some(n) && n > u32::MAX as u64 {
        Err(ConfigError::MaxTokensTooLarge)
    } else {
        Ok(
            ConfigV {
                model_name: model.unwrap(),
                endpoint: ep,
                use_local_model: ulm.unwrap(),
                local_framework: str_field_of(doc, "local_framework"@),
                openai_compatible: match oc {
                    Some(b) => b,
                    None => false,
                },
                max_tokens: match mt {
                    Some(n) => Some(n as u32),
                    None => None,
                },
                api_key: str_field_of(doc, "api_key"@),
            },
        )
    }
}

/// Parses a configuration document. Returns `Ok` exactly on the documents
/// that [`parse_config_spec`] accepts, and then a well-formed configuration.
pub fn parse_config(doc: &str) -> (r: Result<Config, ConfigError>)
    ensures
        r matches Ok(c) ==> parse_config_spec(doc@) == Ok::<ConfigV, ConfigError>(c@),
        r matches Err(e) ==> parse_config_spec(doc@) == Err::<ConfigV, ConfigError>(e),
        r matches Ok(c) ==> c@.wf(),
{
    if !json_is_object(doc) {
        return Err(ConfigError::Malformed);
    }
    let model = match json_str_field(doc, "model_name") {
        Some(m) => m,
        None => {
            return Err(ConfigError::MissingModelName);
        },
    };
    if model.as_str().is_empty() {
        return Err(ConfigError::MissingModelName);
    }
    let ulm = match json_bool_field(doc, "use_local_model") {
        Some(b) => b,
        None => {
            return Err(ConfigError::MissingBackendFlag);
        },
    };
    let oc = json_bool_field(doc, "openai_compatible");
    if !ulm && oc.is_none() {
        return Err(ConfigError::MissingSchemaFlag);
    }
    let ep = json_str_field(doc, "endpoint");
    if !ulm && ep.is_none() {
        return Err(ConfigError::MissingEndpoint);
    }
    let mt = json_u64_field(doc, "max_tokens");
    let max_tokens = match mt {
        Some(n) => {
            if n > 0xffff_ffff {
                return Err(ConfigError::MaxTokensTooLarge);
            }
            Some(n as u32)
        },
        None => None,
    };
    let openai_compatible = match oc {
        Some(b) => b,
        None => false,
    };
    let config = Config {
        model_name: model,
        endpoint: ep,
        use_local_model: ulm,
        local_framework: json_str_field(doc, "local_framework"),
        openai_compatible,
        max_tokens,
        api_key: json_str_field(doc, "api_key"),
    };
    Ok(config)
}

/// The exact text of the default configuration document, written out when no
/// configuration file exists yet.
pub open spec fn default_config_doc() -> Seq<char> {
    "{\"model_name\":\"rinna/nekomata-7b\",\"endpoint\":null,\n \"use_local_model\":true,\"local_framework\":\"python\",\n \"openai_compatible\":false,\"max_tokens\":128,\"api_key\":null}"@
}

/// The default configuration document as a string.
pub fn default_config_text() -> (r: String)
    ensures
        r@ == default_config_doc(),
{
    String::from_str(
        "{\"model_name\":\"rinna/nekomata-7b\",\"endpoint\":null,\n \"use_local_model\":true,\"local_framework\":\"python\",\n \"openai_compatible\":false,\"max_tokens\":128,\"api_key\":null}",
    )
}

} // verus!
