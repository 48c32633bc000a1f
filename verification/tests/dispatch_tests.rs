use llm_chat::config::Config;
use llm_chat::dispatch::{plan_request, RequestPlan};
use llm_chat::errors::{render_reply, render_sentinel, BackendError};
use llm_chat::online::online_outcome;

fn online_config() -> Config {
    Config {
        model_name: "m".to_string(),
        endpoint: Some("http://h/v1".to_string()),
        use_local_model: false,
        local_framework: None,
        openai_compatible: true,
        max_tokens: Some(32),
        api_key: None,
    }
}

#[test]
fn online_openai_plan_and_reply() {
    let config = online_config();
    let plan = plan_request(&config, "p");
    match plan {
        RequestPlan::Online { url, body, bearer } => {
            assert_eq!(url, "http://h/v1");
            assert_eq!(body, r#"{"model":"m","prompt":"p","max_tokens":32}"#);
            assert_eq!(bearer, None);
        }
        _ => panic!("expected the online backend"),
    }
    let outcome = online_outcome(true, Ok(r#"{"choices":[{"text":"hello"}]}"#.to_string()));
    assert_eq!(render_reply(outcome), "hello");
}

#[test]
fn online_custom_schema_uses_input_key() {
    let mut config = online_config();
    config.openai_compatible = false;
    let plan = plan_request(&config, "p");
    match plan {
        RequestPlan::Online { body, .. } => {
            assert_eq!(body, r#"{"model":"m","input":"p","max_tokens":32}"#);
            assert!(!body.contains("\"prompt\""));
        }
        _ => panic!("expected the online backend"),
    }
    let outcome = online_outcome(false, Ok(r#"{"generated_text":"ok"}"#.to_string()));
    assert_eq!(render_reply(outcome), "ok");
}

#[test]
fn online_empty_choices_is_shape_mismatch() {
    let outcome = online_outcome(true, Ok(r#"{"choices":[]}"#.to_string()));
    assert_eq!(render_reply(outcome), "invalid response");
}

#[test]
fn online_non_string_text_is_shape_mismatch() {
    let outcome = online_outcome(true, Ok(r#"{"choices":[{"text":7}]}"#.to_string()));
    assert_eq!(render_reply(outcome), "invalid response");
}

#[test]
fn online_missing_generated_text_is_shape_mismatch() {
    let outcome = online_outcome(false, Ok(r#"{"answer":"x"}"#.to_string()));
    assert_eq!(render_reply(outcome), "invalid response");
}

#[test]
fn transport_error_becomes_sentinel() {
    let outcome = online_outcome(true, Err("connection refused".to_string()));
    assert_eq!(render_reply(outcome), "transport failure: connection refused");
}

#[test]
fn bearer_credential_is_carried() {
    let mut config = online_config();
    config.api_key = Some("SECRET-REDACTED".to_string());
    match plan_request(&config, "p") {
        RequestPlan::Online { bearer, .. } => {
            assert_eq!(bearer.as_deref(), Some("SECRET-REDACTED"));
        }
        _ => panic!("expected the online backend"),
    }
}

#[test]
fn max_tokens_defaults_to_64() {
    let mut config = online_config();
    config.max_tokens = None;
    match plan_request(&config, "p") {
        RequestPlan::Online { body, .. } => {
            assert_eq!(body, r#"{"model":"m","prompt":"p","max_tokens":64}"#);
        }
        _ => panic!("expected the online backend"),
    }
}

#[test]
fn python_framework_plans_subprocess() {
    let config = Config {
        model_name: "m".to_string(),
        endpoint: None,
        use_local_model: true,
        local_framework: Some("python".to_string()),
        openai_compatible: false,
        max_tokens: None,
        api_key: None,
    };
    match plan_request(&config, "what is up") {
        RequestPlan::Subprocess { program, args } => {
            assert_eq!(program, "python3");
            assert_eq!(args, vec!["./llm_interface.py".to_string(), "what is up".to_string()]);
        }
        _ => panic!("expected the subprocess backend"),
    }
}

#[test]
fn ollama_framework_plans_http_with_default_endpoint() {
    let config = Config {
        model_name: "m".to_string(),
        endpoint: None,
        use_local_model: true,
        local_framework: Some("ollama".to_string()),
        openai_compatible: false,
        max_tokens: Some(8),
        api_key: None,
    };
    match plan_request(&config, "p") {
        RequestPlan::OllamaHttp { url, body } => {
            assert_eq!(url, "http://localhost:11434/api/generate");
            assert_eq!(body, r#"{"model":"m","prompt":"p","max_tokens":8}"#);
        }
        _ => panic!("expected the Ollama backend"),
    }
}

#[test]
fn ollama_configured_endpoint_wins() {
    let config = Config {
        model_name: "m".to_string(),
        endpoint: Some("http://box:9999/api/generate".to_string()),
        use_local_model: true,
        local_framework: Some("ollama".to_string()),
        openai_compatible: false,
        max_tokens: None,
        api_key: None,
    };
    match plan_request(&config, "p") {
        RequestPlan::OllamaHttp { url, .. } => {
            assert_eq!(url, "http://box:9999/api/generate");
        }
        _ => panic!("expected the Ollama backend"),
    }
}

#[test]
fn unknown_framework_is_unsupported() {
    let config = Config {
        model_name: "m".to_string(),
        endpoint: None,
        use_local_model: true,
        local_framework: Some("julia".to_string()),
        openai_compatible: false,
        max_tokens: None,
        api_key: None,
    };
    assert!(matches!(plan_request(&config, "p"), RequestPlan::Unsupported));
    assert_eq!(
        render_sentinel(&BackendError::UnsupportedBackend),
        "unsupported local framework"
    );
}

#[test]
fn unset_framework_is_unsupported() {
    let config = Config {
        model_name: "m".to_string(),
        endpoint: None,
        use_local_model: true,
        local_framework: None,
        openai_compatible: false,
        max_tokens: None,
        api_key: None,
    };
    assert!(matches!(plan_request(&config, "p"), RequestPlan::Unsupported));
}

#[test]
fn plans_repeat_exactly() {
    let config = online_config();
    let first = plan_request(&config, "same prompt");
    let second = plan_request(&config, "same prompt");
    match (first, second) {
        (
            RequestPlan::Online { url: u1, body: b1, bearer: k1 },
            RequestPlan::Online { url: u2, body: b2, bearer: k2 },
        ) => {
            assert_eq!(u1, u2);
            assert_eq!(b1, b2);
            assert_eq!(k1, k2);
        }
        _ => panic!("expected two online plans"),
    }
}
