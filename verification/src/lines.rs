//! The lines of a text.

use vstd::prelude::*;
use vstd::string::*;
use crate::text::{lines_of, push_char};

verus! {

/// The number of characters of `text` before its first line feed; its
/// length where it has none.
pub open spec fn line_end(text: Seq<char>) -> int
    decreases text.len(),
{
    if text.len() == 0 || text[0] == '\n' {
        0
    } else {
        1 + line_end(text.drop_first())
    }
}

/// `line` without the carriage return at its end, if it has one.
pub open spec fn without_return(line: Seq<char>) -> Seq<char> {
    if line.len() > 0 && line.last() == '\r' {
        line.drop_last()
    } else {
        line
    }
}

/// The lines of `text`. A line ends at a line feed, which does not belong
/// to it, nor does a carriage return directly in front of the line feed.
/// What follows the last line feed is a line if it is not empty, and is
/// taken as it stands. The empty text has no line.
pub open spec fn lines_in(text: Seq<char>) -> Seq<Seq<char>>
    decreases text.len(),
{
    let k = line_end(text);
    if text.len() == 0 {
        Seq::empty()
    } else if k < 0 || k >= text.len() {
        seq![text]
    } else {
        seq![without_return(text.take(k))] + lines_in(text.skip(k + 1))
    }
}

/// `line_end` is the place of the first line feed.
pub proof fn line_end_found(text: Seq<char>, k: int)
    requires
        0 <= k <= text.len(),
        forall|j: int| 0 <= j < k ==> text[j] != '\n',
        k == text.len() || text[k] == '\n',
    ensures
        line_end(text) == k,
    decreases k,
{
    if k > 0 {
        line_end_found(text.drop_first(), k - 1);
    }
}

/// Splits `text` into its lines.
pub fn split_lines(text: &str) -> (lines: Vec<String>)
    ensures
        lines_of(lines@) == lines_in(text@),
{
    let mut lines: Vec<String> = Vec::new();
    let mut line = String::new();
    let mut held_return = false;
    let ghost mut start: int = 0;
    proof {
        assert(lines_of(lines@) =~= Seq::<Seq<char>>::empty());
        assert(text@.skip(0) =~= text@);
        assert(line@ =~= text@.subrange(0, 0));
    }
    for c in it: text.chars()
        invariant
            it.seq() == text@,
            0 <= start <= it.index() <= text@.len(),
            line@ + (if held_return {
                seq!['\r']
            } else {
                Seq::<char>::empty()
            }) == text@.subrange(start, it.index()),
            forall|j: int| start <= j < it.index() ==> text@[j] != '\n',
            !held_return ==> line@.len() == 0 || line@.last() != '\r',
            lines_in(text@) == lines_of(lines@) + lines_in(text@.skip(start)),
    {
        let ghost i = it.index();
        let ghost before = line@;
        let ghost done = lines_of(lines@);
        let ghost rest = text@.skip(start);
        if c == '\n' {
            proof {
                line_end_found(rest, i - start);
                assert(rest.take(i - start) =~= text@.subrange(start, i));
                if held_return {
                    assert((line@ + seq!['\r']).drop_last() =~= line@);
                } else {
                    assert(line@ + Seq::<char>::empty() =~= line@);
                }
                assert(without_return(rest.take(i - start)) =~= line@);
                assert(rest.skip(i - start + 1) =~= text@.skip(i + 1));
            }
            lines.push(line);
            line = String::new();
            held_return = false;
            proof {
                start = i + 1;
                assert(lines_of(lines@) =~= done + seq![before]);
                assert(line@ =~= text@.subrange(start, i + 1));
            }
        } else {
            if held_return {
                push_char(&mut line, '\r');
            }
            if c == '\r' {
                held_return = true;
            } else {
                held_return = false;
                push_char(&mut line, c);
            }
            assert(line@ + (if held_return {
                seq!['\r']
            } else {
                Seq::<char>::empty()
            }) =~= text@.subrange(start, i + 1));
        }
    }
    let ghost rest = text@.skip(start);
    if held_return {
        push_char(&mut line, '\r');
    }
    assert(line@ =~= rest);
    if line.as_str().unicode_len() > 0 {
        proof {
            line_end_found(rest, rest.len() as int);
        }
        let ghost done = lines_of(lines@);
        lines.push(line);
        assert(lines_of(lines@) =~= done + seq![rest]);
    }
    lines
}

} // verus!
