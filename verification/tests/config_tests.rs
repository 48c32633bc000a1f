use llm_chat::config::{default_config_text, parse_config, ConfigError};

#[test]
fn default_config_round_trips_to_documented_defaults() {
    let text = default_config_text();
    let config = parse_config(&text).expect("the default document must parse");
    assert_eq!(config.model_name, "rinna/nekomata-7b");
    assert_eq!(config.endpoint, None);
    assert!(config.use_local_model);
    assert_eq!(config.local_framework.as_deref(), Some("python"));
    assert!(!config.openai_compatible);
    assert_eq!(config.max_tokens, Some(128));
    assert_eq!(config.api_key, None);
}

#[test]
fn non_object_document_is_malformed() {
    assert_eq!(parse_config("[1,2]").unwrap_err(), ConfigError::Malformed);
    assert_eq!(parse_config("not json").unwrap_err(), ConfigError::Malformed);
}

#[test]
fn missing_model_name_is_rejected() {
    assert_eq!(parse_config("{}").unwrap_err(), ConfigError::MissingModelName);
    assert_eq!(
        parse_config(r#"{"model_name":""}"#).unwrap_err(),
        ConfigError::MissingModelName
    );
    assert_eq!(
        parse_config(r#"{"model_name":5}"#).unwrap_err(),
        ConfigError::MissingModelName
    );
}

#[test]
fn missing_backend_flag_is_rejected() {
    assert_eq!(
        parse_config(r#"{"model_name":"m"}"#).unwrap_err(),
        ConfigError::MissingBackendFlag
    );
}

#[test]
fn online_backend_requires_schema_flag_and_endpoint() {
    assert_eq!(
        parse_config(r#"{"model_name":"m","use_local_model":false}"#).unwrap_err(),
        ConfigError::MissingSchemaFlag
    );
    assert_eq!(
        parse_config(r#"{"model_name":"m","use_local_model":false,"openai_compatible":true}"#)
            .unwrap_err(),
        ConfigError::MissingEndpoint
    );
    let config = parse_config(
        r#"{"model_name":"m","use_local_model":false,"openai_compatible":true,"endpoint":"http://h"}"#,
    )
    .expect("a complete online configuration parses");
    assert_eq!(config.endpoint.as_deref(), Some("http://h"));
    assert!(config.openai_compatible);
}

#[test]
fn local_backend_needs_no_endpoint_or_schema_flag() {
    let config = parse_config(r#"{"model_name":"m","use_local_model":true}"#)
        .expect("a local configuration without extras parses");
    assert!(config.use_local_model);
    assert_eq!(config.endpoint, None);
    assert!(!config.openai_compatible);
    assert_eq!(config.local_framework, None);
    assert_eq!(config.max_tokens, None);
}

#[test]
fn oversized_max_tokens_is_rejected() {
    assert_eq!(
        parse_config(r#"{"model_name":"m","use_local_model":true,"max_tokens":4294967296}"#)
            .unwrap_err(),
        ConfigError::MaxTokensTooLarge
    );
    let config =
        parse_config(r#"{"model_name":"m","use_local_model":true,"max_tokens":4294967295}"#)
            .expect("the largest 32-bit budget parses");
    assert_eq!(config.max_tokens, Some(4294967295));
}

#[test]
fn unknown_fields_are_ignored() {
    let config = parse_config(
        r#"{"model_name":"m","use_local_model":true,"temperature":0.7,"seed":42}"#,
    )
    .expect("unknown fields do not reject the document");
    assert_eq!(config.model_name, "m");
}

#[test]
fn api_key_is_read() {
    let config = parse_config(
        r#"{"model_name":"m","use_local_model":true,"api_key":"SECRET-REDACTED"}"#,
    )
    .expect("a configuration with a credential parses");
    assert_eq!(config.api_key.as_deref(), Some("SECRET-REDACTED"));
}
