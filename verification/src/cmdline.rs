//! Command lines: how the text of a command is split into its words.
use vstd::prelude::*;
use vstd::string::*;

verus! {

/// The words that `shlex::split` splits a command line into, by the rules of
/// the POSIX shell; `None` where the line ends inside a quotation or after a
/// backslash.
pub uninterp spec fn shlex_split(in_str: Seq<char>) -> Option<Seq<Seq<char>>>;

/// The words of a list of strings.
pub open spec fn words_view(words: Option<Vec<String>>) -> Option<Seq<Seq<char>>> {
    match words {
        Some(words) => Some(words.deep_view()),
        None => None,
    }
}

/// Calls `shlex::split`, which takes the whole line and gives its words, or
/// `None` if the line is erroneous.  The contract claims only that the result
/// is a function of the line: it names that function [`shlex_split`].
#[verifier::external_body]
pub(crate) fn split(in_str: &str) -> (words: Option<Vec<String>>)
    ensures
        words_view(words) == shlex_split(in_str@),
{
    shlex::split(in_str)
}

} // verus!
