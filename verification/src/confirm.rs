//! The answer to the question whether the targets are to be written.

use vstd::prelude::*;
use vstd::string::*;

verus! {

/// What a line of input says to a yes-or-no question.
#[derive(Clone, Copy, Debug, PartialEq, Eq, Structural)]
pub enum Answer {
    /// Go on and write.
    Yes,
    /// Write nothing.
    No,
    /// Neither: the question is asked again.
    Unclear,
}

/// The answer that a line gives once the white space around it is gone:
/// `yes` and `no` in lower case are answers, nothing else is.
pub open spec fn answer_of(word: Seq<char>) -> Answer {
    if word == seq!['y', 'e', 's'] {
        Answer::Yes
    } else if word == seq!['n', 'o'] {
        Answer::No
    } else {
        Answer::Unclear
    }
}

/// `text` without the white space at its start and at its end, as
/// `str::trim` of std returns it.
pub uninterp spec fn trimmed(text: Seq<char>) -> Seq<char>;

/// `str::trim` of std. Nothing is claimed of the result but that it is the
/// one that `trimmed` names: the same for the same text.
#[verifier::external_body]
fn trim<'a>(text: &'a str) -> (r: &'a str)
    ensures
        r@ == trimmed(text@),
{
    text.trim()
}

/// The answer that `word` gives, taken as it stands.
pub fn answer_to(word: &str) -> (a: Answer)
    ensures
        a == answer_of(word@),
{
    let n = word.unicode_len();
    if n == 3 && word.get_char(0) == 'y' && word.get_char(1) == 'e' && word.get_char(2) == 's' {
        assert(word@ =~= seq!['y', 'e', 's']);
        Answer::Yes
    } else if n == 2 && word.get_char(0) == 'n' && word.get_char(1) == 'o' {
        assert(word@ =~= seq!['n', 'o']);
        Answer::No
    } else {
        Answer::Unclear
    }
}

/// The answer that a line of input gives, white space around it ignored.
pub fn confirmation(input: &str) -> (a: Answer)
    ensures
        a == answer_of(trimmed(input@)),
{
    answer_to(trim(input))
}

} // verus!
