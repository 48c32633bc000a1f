//! The dispatcher's decision table: from a configuration and a prompt to the
//! one backend action to perform. The action is returned as a plain value —
//! a URL and a body to post, or a program and its arguments to run — so that
//! the code that performs it holds no logic of its own.

use vstd::prelude::*;
use vstd::string::StringExecFns;

use crate::config::{Config, ConfigV};
use crate::request::{build_request_body, online_schema_key, request_body};
use crate::text::str_eq;

verus! {

/// The fixed fallback URL of the Ollama backend, used when the
/// configuration names no endpoint.
pub open spec fn ollama_default_endpoint() -> Seq<char> {
    "http://localhost:11434/api/generate"@
}

/// The interpreter under which the helper program runs.
pub open spec fn helper_interpreter() -> Seq<char> {
    "python3"@
}

/// The helper program invoked for the subprocess backend.
pub open spec fn helper_program() -> Seq<char> {
    "./llm_interface.py"@
}

/// The one action the dispatcher asks for, per prompt.
pub enum RequestPlan {
    /// Post `body` to `url`, with `bearer` as an Authorization credential if
    /// present, and read the reply under the online schema.
    Online { url: String, body: String, bearer: Option<String> },
    /// Post `body` to `url` and assemble the newline-delimited fragments.
    OllamaHttp { url: String, body: String },
    /// Run `program` with `args` and read its output.
    Subprocess { program: String, args: Vec<String> },
    /// No recognized backend: reply with the unsupported-framework sentinel,
    /// touching neither the network nor any process.
    Unsupported,
}

/// The mathematical shadow of [`RequestPlan`].
pub ghost enum RequestPlanV {
    Online { url: Seq<char>, body: Seq<char>, bearer: Option<Seq<char>> },
    OllamaHttp { url: Seq<char>, body: Seq<char> },
    Subprocess { program: Seq<char>, args: Seq<Seq<char>> },
    Unsupported,
}

impl View for RequestPlan {
    type V = RequestPlanV;

    open spec fn view(&self) -> RequestPlanV {
        match self {
            RequestPlan::Online { url, body, bearer } => RequestPlanV::Online {
                url: url@,
                body: body@,
                bearer: match bearer {
                    Some(b) => Some(b@),
                    None => None,
                },
            },
            RequestPlan::OllamaHttp { url, body } => RequestPlanV::OllamaHttp {
                url: url@,
                body: body@,
            },
            RequestPlan::Subprocess { program, args } => RequestPlanV::Subprocess {
                program: program@,
                args: args@.map_values(|a: String| a@),
            },
            RequestPlan::Unsupported => RequestPlanV::Unsupported,
        }
    }
}

/// The decision table: online when `use_local_model` is false (endpoint
/// required, schema per `openai_compatible`); otherwise the subprocess
/// backend for the `python` framework, the Ollama backend for `ollama`
/// (endpoint defaulted when unset), and no backend for anything else.
pub open spec fn plan_spec(c: ConfigV, prompt: Seq<char>) -> RequestPlanV {
    if !c.use_local_model {
        RequestPlanV::Online {
            url: c.endpoint.unwrap(),
            body: request_body(
                c.model_name,
                online_schema_key(c.openai_compatible),
                prompt,
                c.max_tokens_or_default(),
            ),
            bearer: c.api_key,
        }
    } else if c.local_framework == Some("python"@) {
        RequestPlanV::Subprocess {
            program: helper_interpreter(),
            args: seq![helper_program(), prompt],
        }
    } else if c.local_framework == Some("ollama"@) {
        RequestPlanV::OllamaHttp {
            url: match c.endpoint {
                Some(u) => u,
                None => ollama_default_endpoint(),
            },
            body: request_body(c.model_name, "prompt"@, prompt, c.max_tokens_or_default()),
        }
    } else {
        RequestPlanV::Unsupported
    }
}

/// Selects the backend action for one prompt, per the decision table.
pub fn plan_request(config: &Config, prompt: &str) -> (r: RequestPlan)
    requires
        config@.wf(),
    ensures
        r@ == plan_spec(config@, prompt@),
{
    let max_tokens = match &config.max_tokens {
        Some(n) => *n,
        None => 64,
    };
    if !config.use_local_model {
        let url = match &config.endpoint {
            Some(u) => u.clone(),
            None => vstd::pervasive::unreached(),
        };
        let key: &str = if config.openai_compatible {
            "prompt"
        } else {
            "input"
        };
        let body = build_request_body(config.model_name.as_str(), key, prompt, max_tokens);
        let bearer = match &config.api_key {
            Some(k) => Some(k.clone()),
            None => None,
        };
        RequestPlan::Online { url, body, bearer }
    } else {
        match &config.local_framework {
            Some(fw) => {
                if str_eq(fw.as_str(), "python") {
                    let mut args: Vec<String> = Vec::new();
                    args.push(String::from_str("./llm_interface.py"));
                    args.push(String::from_str(prompt));
                    let r = RequestPlan::Subprocess {
                        program: String::from_str("python3"),
                        args,
                    };
                    proof {
                        assert(r@->Subprocess_args =~= seq![helper_program(), prompt@]);
                    }
                    r
                } else if str_eq(fw.as_str(), "ollama") {
                    let url = match &config.endpoint {
                        Some(u) => u.clone(),
                        None => String::from_str("http://localhost:11434/api/generate"),
                    };
                    let body = build_request_body(
                        config.model_name.as_str(),
                        "prompt",
                        prompt,
                        max_tokens,
                    );
                    RequestPlan::OllamaHttp { url, body }
                } else {
                    RequestPlan::Unsupported
                }
            },
            None => RequestPlan::Unsupported,
        }
    }
}

/// The dispatcher builds one request body per online prompt, with exactly
/// the keys `model` and `max_tokens` plus one schema key carrying the
/// prompt: `prompt` under the OpenAI-compatible schema, `input` under the
/// custom one — never both, the two keys being distinct.
pub proof fn lemma_online_schema_key(c: ConfigV, prompt: Seq<char>)
    requires
        c.wf(),
        !c.use_local_model,
    ensures
        plan_spec(c, prompt) matches RequestPlanV::Online { body, .. } && body == request_body(
            c.model_name,
            online_schema_key(c.openai_compatible),
            prompt,
            c.max_tokens_or_default(),
        ),
        c.openai_compatible ==> online_schema_key(c.openai_compatible) == "prompt"@,
        !c.openai_compatible ==> online_schema_key(c.openai_compatible) == "input"@,
        "prompt"@ != "input"@,
{
    reveal_strlit("prompt");
    reveal_strlit("input");
    assert("prompt"@.len() == 6);
    assert("input"@.len() == 5);
}

/// The dispatcher is a function of the configuration and the prompt alone:
/// invoked twice with the same configuration and prompt, it asks for the
/// same action — in particular, the same request body text.
pub proof fn lemma_dispatch_idempotent(c1: ConfigV, c2: ConfigV, p1: Seq<char>, p2: Seq<char>)
    requires
        c1 == c2,
        p1 == p2,
    ensures
        plan_spec(c1, p1) == plan_spec(c2, p2),
{
}

} // verus!
