//! Request-body construction. All three HTTP backends post a JSON object of
//! three fields: the model name, the prompt under a schema key (`prompt` for
//! the OpenAI-compatible and Ollama schemas, `input` for the custom schema),
//! and the token budget. The exact text of the body is pinned down here.

use vstd::prelude::*;
use vstd::string::StringExecFns;

use crate::json_text::{escape_str, escaped, quoted};
use crate::text::{dec_digits, u32_string};

verus! {

/// The schema key under which the prompt travels in an online request.
pub open spec fn online_schema_key(openai_compatible: bool) -> Seq<char> {
    if openai_compatible {
        "prompt"@
    } else {
        "input"@
    }
}

/// The exact text of a request body: a JSON object whose keys are `model`,
/// then the schema key carrying the prompt, then `max_tokens` — and nothing
/// else.
pub open spec fn request_body(
    model: Seq<char>,
    key: Seq<char>,
    prompt: Seq<char>,
    max_tokens: u32,
) -> Seq<char> {
    "{\"model\":"@ + quoted(model) + ",\""@ + key + "\":"@ + quoted(prompt)
        + ",\"max_tokens\":"@ + dec_digits(max_tokens as nat) + "}"@
}

/// Builds the request body for `model`, `prompt` and `max_tokens`, with the
/// prompt filed under `key`.
pub fn build_request_body(model: &str, key: &str, prompt: &str, max_tokens: u32) -> (r: String)
    ensures
        r@ == request_body(model@, key@, prompt@, max_tokens),
{
    let mut out = String::new();
    out.append("{\"model\":\"");
    let m = escape_str(model);
    out.append(m.as_str());
    out.append("\",\"");
    out.append(key);
    out.append("\":\"");
    let p = escape_str(prompt);
    out.append(p.as_str());
    out.append("\",\"max_tokens\":");
    let t = u32_string(max_tokens);
    out.append(t.as_str());
    out.append("}");
    proof {
        reveal_strlit("{\"model\":\"");
        reveal_strlit("{\"model\":");
        reveal_strlit("\"");
        reveal_strlit("\",\"");
        reveal_strlit(",\"");
        reveal_strlit("\":");
        reveal_strlit("\":\"");
        reveal_strlit(",\"max_tokens\":");
        reveal_strlit("\",\"max_tokens\":");
        reveal_strlit("}");
        assert(out@ =~= request_body(model@, key@, prompt@, max_tokens));
    }
    out
}

} // verus!
