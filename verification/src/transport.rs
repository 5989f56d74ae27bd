//! Per-line sanitation of the console's output: terminal escape
//! sequences are removed from every fragment of a physical line before
//! the line is buffered. A fragment is a piece between embedded
//! newlines; each fragment is stripped on its own, so an escape sequence
//! spanning a fragment boundary is not reconstructed.
use vstd::prelude::*;

use crate::text::{join_with, split_on, split_spec};

verus! {

/// What stripping terminal escape sequences leaves of a fragment. The
/// result depends on the fragment's characters alone.
pub uninterp spec fn stripped_of(s: Seq<char>) -> Seq<char>;

/// Relies on strip_ansi_escapes::strip_str: its vte parser consumes the
/// text alone and writes back everything outside escape sequences, so
/// the result is a function of the input, and empty input yields empty
/// output.
#[verifier::external_body]
fn strip_escapes(s: &str) -> (r: String)
    ensures
        r@ == stripped_of(s@),
        s@.len() == 0 ==> r@.len() == 0,
{
    strip_ansi_escapes::strip_str(s)
}

/// Each fragment stripped, in order.
pub open spec fn strip_fragments(parts: Seq<Seq<char>>) -> Seq<Seq<char>>
    decreases parts.len()
{
    if parts.len() == 0 {
        Seq::empty()
    } else {
        strip_fragments(parts.drop_last()).push(stripped_of(parts.last()))
    }
}

/// One buffered line: the raw line cut at embedded newlines, every
/// fragment stripped of escape sequences, the fragments rejoined with
/// newlines.
pub open spec fn sanitize_spec(line: Seq<char>) -> Seq<char> {
    join_with(strip_fragments(split_spec(line, "\n"@)), "\n"@)
}

/// Sanitize one raw line of console output for buffering.
pub fn sanitize_line(line: &str) -> (r: String)
    ensures
        r@ == sanitize_spec(line@),
{
    proof {
        reveal_strlit("\n");
    }
    let parts = split_on(line, "\n");
    let mut stripped: Vec<String> = Vec::new();
    let mut i: usize = 0;
    while i < parts.len()
        invariant
            0 <= i <= parts@.len(),
            parts.deep_view().len() == parts@.len(),
            stripped.deep_view() =~~= strip_fragments(parts.deep_view().take(i as int)),
        decreases parts@.len() - i,
    {
        let ghost dv = parts.deep_view();
        let ghost pre = stripped.deep_view();
        let s = strip_escapes(parts[i].as_str());
        stripped.push(s);
        proof {
            assert(dv.take(i as int + 1).drop_last() =~~= dv.take(i as int));
            assert(dv.take(i as int + 1).last() == dv[i as int]);
            assert(stripped.deep_view() =~~= pre.push(stripped_of(dv[i as int])));
        }
        i += 1;
    }
    proof {
        assert(parts.deep_view().take(parts@.len() as int) =~~= parts.deep_view());
    }
    crate::text::join_strings(&stripped, "\n")
}

} // verus!
