//! Character sequences: runs of one character and the longest of a set of lines.

use vstd::prelude::*;
use vstd::string::*;

verus! {

/// The sequence made of `n` copies of `c`.
pub open spec fn repeated(c: char, n: nat) -> Seq<char> {
    Seq::new(n, |i: int| c)
}

/// `n` spaces.
pub open spec fn blanks(n: nat) -> Seq<char> {
    repeated(' ', n)
}

/// The lines of a content, each as its sequence of characters.
pub open spec fn lines_of(content: Seq<String>) -> Seq<Seq<char>> {
    Seq::new(content.len(), |i: int| content[i]@)
}

/// The greatest number of characters that any of the lines holds; 0 for no lines.
pub open spec fn longest_line(lines: Seq<Seq<char>>) -> nat
    decreases lines.len(),
{
    if lines.len() == 0 {
        0
    } else {
        let rest = longest_line(lines.drop_last());
        if lines.last().len() > rest {
            lines.last().len()
        } else {
            rest
        }
    }
}

/// `longest_line` is an upper bound of every line's length.
pub proof fn longest_line_bounds(lines: Seq<Seq<char>>, i: int)
    requires
        0 <= i < lines.len(),
    ensures
        lines[i].len() <= longest_line(lines),
    decreases lines.len(),
{
    if i < lines.len() - 1 {
        longest_line_bounds(lines.drop_last(), i);
    }
}

/// Where there is a line at all, `longest_line` is the length of one of them.
pub proof fn longest_line_attained(lines: Seq<Seq<char>>) -> (i: int)
    requires
        lines.len() > 0,
    ensures
        0 <= i < lines.len(),
        lines[i].len() == longest_line(lines),
    decreases lines.len(),
{
    let rest = longest_line(lines.drop_last());
    if lines.last().len() > rest || lines.len() == 1 {
        lines.len() - 1
    } else {
        longest_line_attained(lines.drop_last())
    }
}

/// Lines that all hold `w` characters have `w` as their longest.
pub proof fn longest_line_uniform(lines: Seq<Seq<char>>, w: nat)
    requires
        lines.len() > 0,
        forall|i: int| 0 <= i < lines.len() ==> (#[trigger] lines[i]).len() == w,
    ensures
        longest_line(lines) == w,
{
    let i = longest_line_attained(lines);
}

/// `String::push` of std: the string afterwards is the string before with
/// `c` as one more character at its end.
#[verifier::external_body]
pub(crate) fn push_char(s: &mut String, c: char)
    ensures
        final(s)@ == old(s)@.push(c),
{
    s.push(c)
}

/// Appends `n` copies of `c` to `out`.
pub fn push_repeated(out: &mut String, c: char, n: usize)
    ensures
        final(out)@ == old(out)@ + repeated(c, n as nat),
{
    let mut i: usize = 0;
    assert(out@ =~= old(out)@ + repeated(c, 0));
    while i < n
        invariant
            i <= n,
            out@ == old(out)@ + repeated(c, i as nat),
        decreases n - i,
    {
        push_char(out, c);
        i += 1;
        assert(out@ =~= old(out)@ + repeated(c, i as nat));
    }
}

/// The number of characters of the longest of `content`'s lines.
pub fn longest_len(content: &Vec<String>) -> (r: usize)
    ensures
        r == longest_line(lines_of(content@)),
{
    let mut best: usize = 0;
    let mut i: usize = 0;
    assert(lines_of(content@).take(0) =~= Seq::<Seq<char>>::empty());
    while i < content.len()
        invariant
            i <= content.len(),
            best == longest_line(lines_of(content@).take(i as int)),
        decreases content.len() - i,
    {
        let n = content[i].as_str().unicode_len();
        proof {
            let ghost lines = lines_of(content@);
            assert(lines.take(i + 1).drop_last() =~= lines.take(i as int));
            assert(lines.take(i + 1).last() == content@[i as int]@);
        }
        if n > best {
            best = n;
        }
        i += 1;
    }
    assert(lines_of(content@).take(i as int) =~= lines_of(content@));
    best
}

} // verus!
