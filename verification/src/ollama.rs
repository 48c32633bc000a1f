//! Response assembly for the Ollama backend. The server answers with
//! newline-delimited JSON: one object per line, each optionally carrying a
//! string field `response`. The reply is the concatenation of those
//! fragments in body order; lines that do not parse or lack the field
//! contribute nothing.

use vstd::prelude::*;

use crate::errors::{fetched_view, outcome_view, BackendError, BackendErrorV};
use crate::jsonio::{json_str_field, str_field_of};
use crate::text::{chars_of, string_of};

verus! {

/// The lines of `s`, split on newline characters. Splitting the empty
/// sequence gives one empty line, and every newline ends a line, so
/// `a\nb` gives two lines and `a\n` gives a second, empty one.
pub open spec fn split_lines(s: Seq<char>) -> Seq<Seq<char>>
    decreases s.len(),
{
    if s.len() == 0 {
        seq![Seq::<char>::empty()]
    } else {
        let rest = split_lines(s.drop_last());
        if s.last() == '\n' {
            rest.push(Seq::<char>::empty())
        } else {
            rest.update(rest.len() - 1, rest.last().push(s.last()))
        }
    }
}

/// Splitting always yields at least one line.
pub proof fn lemma_split_lines_nonempty(s: Seq<char>)
    ensures
        split_lines(s).len() >= 1,
    decreases s.len(),
{
    if s.len() > 0 {
        lemma_split_lines_nonempty(s.drop_last());
    }
}

/// What one line contributes to the reply: its `response` field, or nothing.
pub open spec fn fragment_of(line: Seq<char>) -> Seq<char> {
    match str_field_of(line, "response"@) {
        Some(r) => r,
        None => Seq::<char>::empty(),
    }
}

/// The fragments of all lines, concatenated in order.
pub open spec fn concat_fragments(lines: Seq<Seq<char>>) -> Seq<char>
    decreases lines.len(),
{
    if lines.len() == 0 {
        Seq::<char>::empty()
    } else {
        concat_fragments(lines.drop_last()) + fragment_of(lines.last())
    }
}

/// What an Ollama response body means: the concatenated fragments, or the
/// empty-stream error exactly when they amount to nothing.
pub open spec fn ollama_assemble_spec(body: Seq<char>) -> Result<Seq<char>, BackendErrorV> {
    let all = concat_fragments(split_lines(body));
    if all.len() == 0 {
        Err(BackendErrorV::EmptyStream)
    } else {
        Ok(all)
    }
}

fn append_fragment(reply: &mut Vec<char>, line: &Vec<char>)
    ensures
        final(reply)@ == old(reply)@ + fragment_of(line@),
{
    let s = string_of(line);
    match json_str_field(s.as_str(), "response") {
        Some(frag) => {
            let mut fv = chars_of(frag.as_str());
            reply.append(&mut fv);
        },
        None => {
            assert(reply@ =~= reply@ + fragment_of(line@));
        },
    }
}

/// Assembles the reply from an Ollama response body: for lines L1..Ln with
/// `response` fragments r1..rn, the reply is r1 + ... + rn in body order,
/// with unparsable and field-less lines contributing the empty string; the
/// empty-stream error comes exactly when that concatenation is empty.
pub fn assemble_ollama_body(body: &str) -> (r: Result<String, BackendError>)
    ensures
        outcome_view(r) == ollama_assemble_spec(body@),
{
    let v = chars_of(body);
    let mut reply: Vec<char> = Vec::new();
    let mut cur: Vec<char> = Vec::new();
    let mut i: usize = 0;
    proof {
        assert(v@.subrange(0, 0) =~= Seq::<char>::empty());
        assert(split_lines(v@.subrange(0, 0)).drop_last() =~= Seq::<Seq<char>>::empty());
    }
    while i < v.len()
        invariant
            i <= v@.len(),
            v@ == body@,
            split_lines(v@.subrange(0, i as int)).len() >= 1,
            cur@ == split_lines(v@.subrange(0, i as int)).last(),
            reply@ == concat_fragments(split_lines(v@.subrange(0, i as int)).drop_last()),
        decreases v@.len() - i,
    {
        let ghost pre = v@.subrange(0, i as int);
        let ghost post = v@.subrange(0, i + 1 as int);
        proof {
            assert(post.drop_last() =~= pre);
            assert(post.last() == v@[i as int]);
        }
        let c = v[i];
        if c == '\n' {
            append_fragment(&mut reply, &cur);
            cur = Vec::new();
            proof {
                let lines = split_lines(pre);
                assert(split_lines(post) == lines.push(Seq::<char>::empty()));
                assert(split_lines(post).drop_last() =~= lines);
                assert(concat_fragments(lines) == concat_fragments(lines.drop_last())
                    + fragment_of(lines.last()));
            }
        } else {
            cur.push(c);
            proof {
                let lines = split_lines(pre);
                let updated = lines.update(lines.len() - 1, lines.last().push(v@[i as int]));
                assert(split_lines(post) == updated);
                assert(updated.drop_last() =~= lines.drop_last());
                assert(updated.last() == lines.last().push(v@[i as int]));
            }
        }
        i = i + 1;
    }
    proof {
        assert(v@.subrange(0, v@.len() as int) =~= v@);
    }
    append_fragment(&mut reply, &cur);
    proof {
        let lines = split_lines(v@);
        assert(reply@ == concat_fragments(lines.drop_last()) + fragment_of(lines.last()));
        assert(reply@ == concat_fragments(lines));
    }
    if reply.len() == 0 {
        Err(BackendError::EmptyStream)
    } else {
        Ok(string_of(&reply))
    }
}

/// The Ollama backend's outcome for a transport result: assembly on a
/// delivered body, a transport error otherwise.
pub open spec fn ollama_outcome_spec(fetched: Result<Seq<char>, Seq<char>>) -> Result<
    Seq<char>,
    BackendErrorV,
> {
    match fetched {
        Ok(body) => ollama_assemble_spec(body),
        Err(detail) => Err(BackendErrorV::Transport { detail }),
    }
}

/// Assembles the Ollama reply once the transport has spoken.
pub fn ollama_outcome(fetched: Result<String, String>) -> (r: Result<String, BackendError>)
    ensures
        outcome_view(r) == ollama_outcome_spec(fetched_view(fetched)),
{
    match fetched {
        Ok(body) => assemble_ollama_body(body.as_str()),
        Err(detail) => Err(BackendError::Transport { detail }),
    }
}

} // verus!
