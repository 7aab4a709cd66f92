//! Shell-word tokenization of the input line.  Splitting honours
//! single/double quoting and backslash escaping; the same tokenizer feeds
//! both completion-key normalization and command dispatch, so the two can
//! never disagree on word boundaries.

use vstd::prelude::*;

use crate::text::lines_view;

verus! {

/// The shell words of a line, in order.  This names the result of the
/// tokenizer: it depends on the characters of the line alone.
pub uninterp spec fn shell_words(s: Seq<char>) -> Seq<Seq<char>>;

/// Relies on `shlex::Shlex`: iterating it yields the POSIX-shell-like
/// words of the line, in order, and yields nothing for an empty line.
/// Malformed quoting degrades by dropping the trailing word rather than
/// raising an error, exactly as the iterator does.
#[verifier::external_body]
pub(crate) fn split_words(line: &str) -> (r: Vec<String>)
    ensures
        lines_view(r@) == shell_words(line@),
        line@.len() == 0 ==> r@.len() == 0,
{
    shlex::Shlex::new(line).collect()
}

} // verus!
