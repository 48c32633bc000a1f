use llm_chat::json_text::escape_str;
use llm_chat::request::build_request_body;
use llm_chat::text::{chars_of, string_of, u32_string};

#[test]
fn decimal_rendering_matches() {
    assert_eq!(u32_string(0), "0");
    assert_eq!(u32_string(7), "7");
    assert_eq!(u32_string(64), "64");
    assert_eq!(u32_string(305), "305");
    assert_eq!(u32_string(4294967295), "4294967295");
}

#[test]
fn chars_round_trip_through_vectors() {
    let v = chars_of("caf\u{00e9} \u{732b}");
    assert_eq!(v.len(), 6);
    assert_eq!(string_of(&v), "caf\u{00e9} \u{732b}");
}

#[test]
fn escaping_covers_quotes_backslashes_and_controls() {
    assert_eq!(escape_str("plain"), "plain");
    assert_eq!(escape_str("a\"b"), "a\\\"b");
    assert_eq!(escape_str("a\\b"), "a\\\\b");
    assert_eq!(escape_str("a\nb\rc\td"), "a\\nb\\rc\\td");
    assert_eq!(escape_str("\u{0001}\u{001f}"), "\\u0001\\u001f");
}

#[test]
fn request_body_escapes_the_prompt() {
    let body = build_request_body("m", "prompt", "say \"hi\"\nplease", 5);
    assert_eq!(body, "{\"model\":\"m\",\"prompt\":\"say \\\"hi\\\"\\nplease\",\"max_tokens\":5}");
    let parsed: serde_json::Value = serde_json::from_str(&body).expect("the body is valid JSON");
    assert_eq!(parsed["model"], "m");
    assert_eq!(parsed["prompt"], "say \"hi\"\nplease");
    assert_eq!(parsed["max_tokens"], 5);
}

#[test]
fn request_body_keeps_non_ascii_prompts() {
    let body = build_request_body("m", "input", "\u{732b}ですか", 1);
    let parsed: serde_json::Value = serde_json::from_str(&body).expect("the body is valid JSON");
    assert_eq!(parsed["input"], "\u{732b}ですか");
    assert!(parsed.get("prompt").is_none());
}
