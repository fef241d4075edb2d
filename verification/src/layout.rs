//! The options that shape a box and the quantities derived from them.

use vstd::prelude::*;
use vstd::string::*;
use crate::text::{
    lines_of, longest_len, longest_line, longest_line_attained, longest_line_uniform, push_char,
};

verus! {

/// How the box is delimited as a comment.
#[derive(Clone, Copy, Debug, PartialEq, Eq, Structural)]
pub enum BoxStyle {
    /// Opened by `/*` and closed by `*/`.
    Block,
    /// Every row starts and ends with `///`; the corners are `/`.
    LineComment,
    /// No comment delimiters: the corners are the border character.
    BoxOnly,
}

/// The resolved options of one rendering.
#[derive(Clone, Debug)]
pub struct LayoutOptions {
    /// Fill token; its first character draws the top and bottom border.
    pub symbol: String,
    /// Side wall, where it differs from `symbol`.
    pub wall: Option<String>,
    /// Banner above the box; an empty title is no title.
    pub title: Option<String>,
    /// Blank columns between each wall and the text.
    pub width_pad: usize,
    /// Blank rows below the top and above the bottom border.
    pub height_pad: usize,
    /// Further blank columns inside the left wall.
    pub left_pad: usize,
    /// Further blank columns inside the right wall.
    pub right_pad: usize,
    /// Spaces in front of every rendered row.
    pub move_offset: usize,
    /// The comment delimiters.
    pub style: BoxStyle,
    /// Whether the box goes to the end of a file.
    pub append_mode: bool,
}

impl LayoutOptions {
    /// What holds of options that a caller may render with: the symbol has
    /// a first character, and the line-comment style comes with the
    /// default symbol and no wall of its own.
    pub open spec fn well_formed(&self) -> bool {
        &&& self.symbol@.len() > 0
        &&& self.style == BoxStyle::LineComment ==> self.wall is None && self.symbol@
            == default_symbol()
        &&& self.move_offset > 0 ==> self.style == BoxStyle::BoxOnly
    }

    /// The string that stands at both ends of each row inside the box.
    pub open spec fn wall_string(&self) -> Seq<char> {
        match self.style {
            BoxStyle::LineComment => seq!['/', '/', '/'],
            _ => match self.wall {
                Some(w) => w@,
                None => self.symbol@,
            },
        }
    }

    /// The character of the top and bottom border.
    pub open spec fn wall_char(&self) -> char
        recommends
            self.symbol@.len() > 0,
    {
        self.symbol@[0]
    }

    /// The title's characters; none where there is no title.
    pub open spec fn title_text(&self) -> Seq<char> {
        match self.title {
            Some(t) => t@,
            None => Seq::empty(),
        }
    }

    /// The greatest number of characters over the lines and the title.
    pub open spec fn longest(&self, lines: Seq<Seq<char>>) -> nat {
        if self.title_text().len() > longest_line(lines) {
            self.title_text().len()
        } else {
            longest_line(lines)
        }
    }

    /// The columns between the two walls of a row.
    pub open spec fn inner_width(&self, lines: Seq<Seq<char>>) -> int {
        self.longest(lines) + 2 * self.width_pad + self.left_pad + self.right_pad
    }

    /// The columns of a row, walls included.
    pub open spec fn row_width(&self, lines: Seq<Seq<char>>) -> int {
        self.inner_width(lines) + 2 * self.wall_string().len()
    }

    /// The box's width: the number of border characters between its corners.
    pub open spec fn width(&self, lines: Seq<Seq<char>>) -> int {
        self.row_width(lines) - 1
    }

    /// The box's height: both borders and one row for each line.
    pub open spec fn height(&self, lines: Seq<Seq<char>>) -> nat {
        2 + lines.len()
    }

    /// What rendering asks of the options and the lines: a border character
    /// exists, a row has at least one column, and its width is a `usize`.
    pub open spec fn fits(&self, lines: Seq<Seq<char>>) -> bool {
        &&& self.symbol@.len() > 0
        &&& 1 <= self.row_width(lines) <= usize::MAX
    }
}

/// The symbol of a box for which none was chosen.
pub open spec fn default_symbol() -> Seq<char> {
    seq!['*']
}

impl Default for LayoutOptions {
    /// A block comment drawn with `*`, two blank columns beside the text and
    /// no other padding, no title, meant for the start of a file.
    fn default() -> (o: LayoutOptions)
        ensures
            o.well_formed(),
            o.symbol@ == default_symbol(),
            o.wall is None,
            o.title is None,
            o.width_pad == 2,
            o.height_pad == 0,
            o.left_pad == 0,
            o.right_pad == 0,
            o.move_offset == 0,
            o.style == BoxStyle::Block,
            !o.append_mode,
    {
        let mut symbol = String::new();
        push_char(&mut symbol, '*');
        assert(symbol@ =~= default_symbol());
        LayoutOptions {
            symbol,
            wall: None,
            title: None,
            width_pad: 2,
            height_pad: 0,
            left_pad: 0,
            right_pad: 0,
            move_offset: 0,
            style: BoxStyle::Block,
            append_mode: false,
        }
    }
}

/// Lines of one width `w`, under options without left or right padding and
/// without a title longer than `w`: the longest is `w`, and the width is
/// `w`, the width padding on both sides and the two walls, less one. Where
/// the wall is the empty string, that is `longest + 2 * width_pad - 1`.
pub proof fn uniform_lines_width(opts: LayoutOptions, lines: Seq<Seq<char>>, w: nat)
    requires
        lines.len() > 0,
        forall|i: int| 0 <= i < lines.len() ==> (#[trigger] lines[i]).len() == w,
        opts.title_text().len() <= w,
        opts.left_pad == 0,
        opts.right_pad == 0,
    ensures
        opts.longest(lines) == w,
        opts.width(lines) == opts.longest(lines) + 2 * opts.width_pad + 2
            * opts.wall_string().len() - 1,
        opts.wall_string().len() == 0 ==> opts.width(lines) == opts.longest(lines) + 2
            * opts.width_pad - 1,
{
    longest_line_uniform(lines, w);
}

/// A title that is at least as long as every line gives the longest its
/// own length.
pub proof fn title_drives_longest(opts: LayoutOptions, lines: Seq<Seq<char>>)
    requires
        forall|i: int| 0 <= i < lines.len() ==> (#[trigger] lines[i]).len() <= opts.title_text().len(),
    ensures
        opts.longest(lines) == opts.title_text().len(),
{
    if lines.len() > 0 {
        let i = longest_line_attained(lines);
    }
}

/// The wall of the line-comment style.
pub fn line_comment_wall() -> (w: String)
    ensures
        w@ == seq!['/', '/', '/'],
{
    let mut w = String::new();
    push_char(&mut w, '/');
    push_char(&mut w, '/');
    push_char(&mut w, '/');
    assert(w@ =~= seq!['/', '/', '/']);
    w
}

/// The quantities that the rows of one box share.
#[derive(Clone, Copy, Debug, PartialEq, Eq, Structural)]
pub struct Metrics {
    /// Characters of the longest line or of the title, whichever is more.
    pub longest: usize,
    /// Columns between the walls of a row.
    pub inner_width: usize,
    /// Columns of a row with its walls: one more than the box's width.
    pub row_width: usize,
    /// The box's width.
    pub width: usize,
    /// Characters of the title.
    pub title_len: usize,
    /// Characters of the wall.
    pub wall_len: usize,
}

/// Measures the box of `content` under `opts`, by characters, not bytes.
/// `None` exactly where the options do not fit the content.
pub fn measure(content: &Vec<String>, opts: &LayoutOptions) -> (m: Option<Metrics>)
    ensures
        m is Some <==> opts.fits(lines_of(content@)),
        m matches Some(k) ==> {
            &&& k.longest == opts.longest(lines_of(content@))
            &&& k.inner_width == opts.inner_width(lines_of(content@))
            &&& k.row_width == opts.row_width(lines_of(content@))
            &&& k.width == opts.width(lines_of(content@))
            &&& k.title_len == opts.title_text().len()
            &&& k.wall_len == opts.wall_string().len()
        },
{
    let ghost lines = lines_of(content@);
    let mut longest: usize = longest_len(content);
    let title_len: usize = match &opts.title {
        Some(t) => t.as_str().unicode_len(),
        None => 0,
    };
    if title_len > longest {
        longest = title_len;
    }
    let wall_len: usize = match opts.style {
        BoxStyle::LineComment => 3,
        _ => match &opts.wall {
            Some(w) => w.as_str().unicode_len(),
            None => opts.symbol.as_str().unicode_len(),
        },
    };
    if opts.symbol.as_str().unicode_len() == 0 {
        return None;
    }
    let pads = match opts.width_pad.checked_mul(2) {
        Some(v) => v,
        None => { return None; },
    };
    let a = match longest.checked_add(pads) {
        Some(v) => v,
        None => { return None; },
    };
    let b = match a.checked_add(opts.left_pad) {
        Some(v) => v,
        None => { return None; },
    };
    let inner = match b.checked_add(opts.right_pad) {
        Some(v) => v,
        None => { return None; },
    };
    let walls = match wall_len.checked_mul(2) {
        Some(v) => v,
        None => { return None; },
    };
    let row = match inner.checked_add(walls) {
        Some(v) => v,
        None => { return None; },
    };
    if row == 0 {
        return None;
    }
    Some(
        Metrics {
            longest,
            inner_width: inner,
            row_width: row,
            width: row - 1,
            title_len,
            wall_len,
        },
    )
}

/// Whether `content` can be rendered under `opts`.
pub fn fits(content: &Vec<String>, opts: &LayoutOptions) -> (b: bool)
    ensures
        b == opts.fits(lines_of(content@)),
{
    measure(content, opts).is_some()
}

} // verus!
