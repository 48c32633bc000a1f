//! Reply extraction for the online backend: one JSON response document,
//! read either under the OpenAI-compatible schema (`choices[0].text`) or
//! under the custom schema (`generated_text`).

use vstd::prelude::*;

use crate::errors::{fetched_view, outcome_view, BackendError, BackendErrorV};
use crate::jsonio::{choices_text_of, json_choices_text, json_str_field, str_field_of};

verus! {

/// Where the reply sits in an online response document.
pub open spec fn online_reply_of(openai_compatible: bool, body: Seq<char>) -> Option<Seq<char>> {
    if openai_compatible {
        choices_text_of(body)
    } else {
        str_field_of(body, "generated_text"@)
    }
}

/// What extraction yields on a response document: the reply string at the
/// schema's path, or a shape mismatch exactly when that path is missing or
/// not a string.
pub open spec fn online_extract_spec(openai_compatible: bool, body: Seq<char>) -> Result<
    Seq<char>,
    BackendErrorV,
> {
    match online_reply_of(openai_compatible, body) {
        Some(s) => Ok(s),
        None => Err(BackendErrorV::ProtocolShapeMismatch),
    }
}

/// Extracts the reply from an online response document. Any document lacking
/// the schema's reply path as a string yields the shape-mismatch error — in
/// OpenAI-compatible mode, any document without `choices[0].text` as a
/// string.
pub fn online_extract(openai_compatible: bool, body: &str) -> (r: Result<String, BackendError>)
    ensures
        outcome_view(r) == online_extract_spec(openai_compatible, body@),
{
    let text = if openai_compatible {
        json_choices_text(body)
    } else {
        json_str_field(body, "generated_text")
    };
    match text {
        Some(s) => Ok(s),
        None => Err(BackendError::ProtocolShapeMismatch),
    }
}

/// What the online backend replies once the transport has spoken: the
/// extracted reply on a delivered body, the transport error otherwise.
pub open spec fn online_outcome_spec(openai_compatible: bool, fetched: Result<Seq<char>, Seq<char>>) -> Result<
    Seq<char>,
    BackendErrorV,
> {
    match fetched {
        Ok(body) => online_extract_spec(openai_compatible, body),
        Err(detail) => Err(BackendErrorV::Transport { detail }),
    }
}

/// The online backend's outcome for a transport result: extraction on
/// success, a transport error otherwise.
pub fn online_outcome(openai_compatible: bool, fetched: Result<String, String>) -> (r: Result<
    String,
    BackendError,
>)
    ensures
        outcome_view(r) == online_outcome_spec(openai_compatible, fetched_view(fetched)),
{
    match fetched {
        Ok(body) => online_extract(openai_compatible, body.as_str()),
        Err(detail) => Err(BackendError::Transport { detail }),
    }
}

} // verus!
