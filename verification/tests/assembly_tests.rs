use llm_chat::errors::{render_reply, BackendError};
use llm_chat::ollama::{assemble_ollama_body, ollama_outcome};
use llm_chat::subproc::{subprocess_outcome, RunOutcome};

#[test]
fn ollama_fragments_concatenate_in_order() {
    let body = "{\"response\":\"he\"}\n{\"response\":\"llo\"}\n{\"done\":true}\n";
    assert_eq!(render_reply(assemble_ollama_body(body)), "hello");
}

#[test]
fn ollama_empty_body_is_empty_stream() {
    assert_eq!(render_reply(assemble_ollama_body("")), "ollama inference error");
}

#[test]
fn ollama_lines_without_fragments_are_empty_stream() {
    let body = "{\"done\":true}\nnot json at all\n\n";
    assert_eq!(render_reply(assemble_ollama_body(body)), "ollama inference error");
}

#[test]
fn ollama_skips_unparsable_and_fieldless_lines() {
    let body = ": keep-alive\n{\"response\":\"a\"}\n{\"done\":true}\n{\"response\":\"b\"}";
    assert_eq!(render_reply(assemble_ollama_body(body)), "ab");
}

#[test]
fn ollama_non_string_response_field_contributes_nothing() {
    let body = "{\"response\":3}\n{\"response\":\"x\"}\n";
    assert_eq!(render_reply(assemble_ollama_body(body)), "x");
}

#[test]
fn ollama_transport_error_becomes_sentinel() {
    let outcome = ollama_outcome(Err("no route to host".to_string()));
    assert_eq!(render_reply(outcome), "transport failure: no route to host");
}

#[test]
fn ollama_delivered_body_is_assembled() {
    let outcome = ollama_outcome(Ok("{\"response\":\"fine\"}".to_string()));
    assert_eq!(render_reply(outcome), "fine");
}

#[test]
fn subprocess_success_trims_trailing_whitespace() {
    let run = RunOutcome {
        exit_code: 0,
        stdout: "hi\n".to_string(),
        stderr: String::new(),
    };
    assert_eq!(render_reply(subprocess_outcome(Ok(run))), "hi");
}

#[test]
fn subprocess_trims_only_the_tail() {
    let run = RunOutcome {
        exit_code: 0,
        stdout: "  two words \t\r\n".to_string(),
        stderr: String::new(),
    };
    assert_eq!(render_reply(subprocess_outcome(Ok(run))), "  two words");
}

#[test]
fn subprocess_nonzero_exit_reports_stderr() {
    let run = RunOutcome {
        exit_code: 3,
        stdout: "partial".to_string(),
        stderr: "boom".to_string(),
    };
    assert_eq!(render_reply(subprocess_outcome(Ok(run))), "subprocess error: boom");
}

#[test]
fn subprocess_spawn_failure_reports_detail() {
    let outcome = subprocess_outcome(Err("no such file".to_string()));
    assert_eq!(render_reply(outcome), "subprocess spawn failure: no such file");
}

#[test]
fn empty_stream_sentinel_text() {
    assert_eq!(render_reply(Err(BackendError::EmptyStream)), "ollama inference error");
}
