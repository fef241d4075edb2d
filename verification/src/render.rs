//! The box itself: what each row holds, and the function that writes it.

use vstd::prelude::*;
use vstd::string::*;
use crate::layout::{line_comment_wall, measure, BoxStyle, LayoutOptions, Metrics};
use crate::text::{blanks, lines_of, push_char, push_repeated, repeated};

verus! {

/// Why a content was not rendered.
#[derive(Clone, Copy, Debug, PartialEq, Eq, Structural)]
pub enum RenderError {
    /// The content has no line.
    EmptyContent,
}

/// A line feed as a sequence.
pub open spec fn newline() -> Seq<char> {
    seq!['\n']
}

/// `row` written `n` times, one after the other.
pub open spec fn rows_repeated(row: Seq<char>, n: nat) -> Seq<char>
    decreases n,
{
    if n == 0 {
        Seq::empty()
    } else {
        rows_repeated(row, (n - 1) as nat) + row
    }
}

impl LayoutOptions {
    /// The spaces in front of every row.
    pub open spec fn indent(&self) -> Seq<char> {
        blanks(self.move_offset as nat)
    }

    /// What stands between the indent and the left wall: one space under the
    /// block style, which lines the walls up below the `*` of `/*`.
    pub open spec fn lead(&self) -> Seq<char> {
        match self.style {
            BoxStyle::Block => seq![' '],
            _ => Seq::empty(),
        }
    }

    /// The token that opens the top border.
    pub open spec fn open_delimiter(&self) -> Seq<char> {
        match self.style {
            BoxStyle::Block => seq!['/', '*'],
            BoxStyle::LineComment => seq!['/'],
            BoxStyle::BoxOnly => seq![self.wall_char()],
        }
    }

    /// The token that closes the bottom border.
    pub open spec fn close_delimiter(&self) -> Seq<char> {
        match self.style {
            BoxStyle::Block => seq!['*', '/'],
            BoxStyle::LineComment => seq!['/'],
            BoxStyle::BoxOnly => seq![self.wall_char()],
        }
    }

    /// The blank columns left over beside the title in its row.
    pub open spec fn title_gap(&self, lines: Seq<Seq<char>>) -> int {
        self.inner_width(lines) - self.title_text().len()
    }

    /// The banner: a rule one longer than the border, then the title centred
    /// between two walls, the odd column going to its right. Nothing where
    /// the title is empty.
    pub open spec fn title_block(&self, lines: Seq<Seq<char>>) -> Seq<char> {
        if self.title_text().len() == 0 {
            Seq::empty()
        } else {
            let half = (self.title_gap(lines) / 2) as nat;
            self.indent() + repeated(self.wall_char(), self.row_width(lines) as nat) + newline()
                + self.indent() + self.wall_string() + blanks(half) + self.title_text() + blanks(
                half,
            ) + blanks((self.title_gap(lines) % 2) as nat) + self.wall_string() + newline()
        }
    }

    /// The top border row.
    pub open spec fn top_border(&self, lines: Seq<Seq<char>>) -> Seq<char> {
        self.indent() + self.open_delimiter() + repeated(
            self.wall_char(),
            self.width(lines) as nat,
        ) + newline()
    }

    /// A row of height padding: two walls with blanks between them.
    pub open spec fn pad_row(&self, lines: Seq<Seq<char>>) -> Seq<char> {
        self.indent() + self.lead() + self.wall_string() + blanks(self.inner_width(lines) as nat)
            + self.wall_string() + newline()
    }

    /// The row of one line: the line between its paddings and the walls,
    /// filled with blanks up to the longest line, counted in characters.
    pub open spec fn content_row(&self, lines: Seq<Seq<char>>, line: Seq<char>) -> Seq<char> {
        self.indent() + self.lead() + self.wall_string() + blanks(self.width_pad as nat) + blanks(
            self.left_pad as nat,
        ) + line + blanks((self.longest(lines) - line.len()) as nat) + blanks(
            self.right_pad as nat,
        ) + blanks(self.width_pad as nat) + self.wall_string() + newline()
    }

    /// The rows of the first `n` lines, in their order.
    pub open spec fn content_rows(&self, lines: Seq<Seq<char>>, n: nat) -> Seq<char>
        decreases n,
    {
        if n == 0 {
            Seq::empty()
        } else {
            self.content_rows(lines, (n - 1) as nat) + self.content_row(lines, lines[n - 1])
        }
    }

    /// The bottom border row.
    pub open spec fn bottom_border(&self, lines: Seq<Seq<char>>) -> Seq<char> {
        self.indent() + self.lead() + repeated(self.wall_char(), self.width(lines) as nat)
            + self.close_delimiter() + newline()
    }

    /// What precedes the box: a line feed where it is to be appended.
    pub open spec fn prefix(&self) -> Seq<char> {
        if self.append_mode {
            newline()
        } else {
            Seq::empty()
        }
    }

    /// The whole rendered text of `lines`.
    pub open spec fn rendered(&self, lines: Seq<Seq<char>>) -> Seq<char> {
        self.prefix() + self.title_block(lines) + self.top_border(lines) + rows_repeated(
            self.pad_row(lines),
            self.height_pad as nat,
        ) + self.content_rows(lines, lines.len()) + rows_repeated(
            self.pad_row(lines),
            self.height_pad as nat,
        ) + self.bottom_border(lines)
    }
}

/// Every row inside the box is as long as every other, whatever the
/// lengths of the lines and of the title, counted in characters: the box's
/// right edge is straight.
pub proof fn rows_aligned(opts: LayoutOptions, lines: Seq<Seq<char>>, i: int)
    requires
        0 <= i < lines.len(),
    ensures
        opts.content_row(lines, lines[i]).len() == opts.pad_row(lines).len(),
        opts.content_row(lines, lines[i]).len() == opts.move_offset + opts.lead().len()
            + opts.row_width(lines) + 1,
{
    crate::text::longest_line_bounds(lines, i);
}

/// The side wall of `opts` as a string of its own.
pub fn wall_of(opts: &LayoutOptions) -> (w: String)
    ensures
        w@ == opts.wall_string(),
{
    match opts.style {
        BoxStyle::LineComment => line_comment_wall(),
        _ => match &opts.wall {
            Some(w) => w.clone(),
            None => opts.symbol.clone(),
        },
    }
}

/// Appends the indent and the lead of a row.
fn push_lead(out: &mut String, opts: &LayoutOptions)
    ensures
        final(out)@ == old(out)@ + opts.indent() + opts.lead(),
{
    push_repeated(out, ' ', opts.move_offset);
    match opts.style {
        BoxStyle::Block => {
            push_char(out, ' ');
            assert(out@ =~= old(out)@ + opts.indent() + opts.lead());
        },
        _ => {
            assert(out@ =~= old(out)@ + opts.indent() + opts.lead());
        },
    }
}

/// Appends the token that opens the top border.
fn push_open(out: &mut String, opts: &LayoutOptions, border: char)
    requires
        opts.symbol@.len() > 0,
        border == opts.wall_char(),
    ensures
        final(out)@ == old(out)@ + opts.open_delimiter(),
{
    match opts.style {
        BoxStyle::Block => {
            push_char(out, '/');
            push_char(out, '*');
        },
        BoxStyle::LineComment => {
            push_char(out, '/');
        },
        BoxStyle::BoxOnly => {
            push_char(out, border);
        },
    }
    assert(out@ =~= old(out)@ + opts.open_delimiter());
}

/// Appends the token that closes the bottom border.
fn push_close(out: &mut String, opts: &LayoutOptions, border: char)
    requires
        opts.symbol@.len() > 0,
        border == opts.wall_char(),
    ensures
        final(out)@ == old(out)@ + opts.close_delimiter(),
{
    match opts.style {
        BoxStyle::Block => {
            push_char(out, '*');
            push_char(out, '/');
        },
        BoxStyle::LineComment => {
            push_char(out, '/');
        },
        BoxStyle::BoxOnly => {
            push_char(out, border);
        },
    }
    assert(out@ =~= old(out)@ + opts.close_delimiter());
}

/// Appends the banner, if there is a title.
fn push_title_block(
    out: &mut String,
    opts: &LayoutOptions,
    content: &Vec<String>,
    m: Metrics,
    wall: &String,
    border: char,
)
    requires
        measure_spec(opts, lines_of(content@), m),
        wall@ == opts.wall_string(),
        border == opts.wall_char(),
    ensures
        final(out)@ == old(out)@ + opts.title_block(lines_of(content@)),
{
    let ghost lines = lines_of(content@);
    match &opts.title {
        Some(t) => {
            if m.title_len != 0 {
                let gap: usize = m.inner_width - m.title_len;
                let half: usize = gap / 2;
                push_repeated(out, ' ', opts.move_offset);
                push_repeated(out, border, m.row_width);
                push_char(out, '\n');
                push_repeated(out, ' ', opts.move_offset);
                out.append(wall.as_str());
                push_repeated(out, ' ', half);
                out.append(t.as_str());
                push_repeated(out, ' ', half);
                push_repeated(out, ' ', gap % 2);
                out.append(wall.as_str());
                push_char(out, '\n');
                assert(out@ =~= old(out)@ + opts.title_block(lines));
            } else {
                assert(out@ =~= old(out)@ + opts.title_block(lines));
            }
        },
        None => {
            assert(out@ =~= old(out)@ + opts.title_block(lines));
        },
    }
}

/// That `m` holds the measures of `lines` under `opts`, which fit.
pub open spec fn measure_spec(opts: &LayoutOptions, lines: Seq<Seq<char>>, m: Metrics) -> bool {
    &&& opts.fits(lines)
    &&& m.longest == opts.longest(lines)
    &&& m.inner_width == opts.inner_width(lines)
    &&& m.row_width == opts.row_width(lines)
    &&& m.width == opts.width(lines)
    &&& m.title_len == opts.title_text().len()
    &&& m.wall_len == opts.wall_string().len()
}

/// Appends the top border row.
fn push_top_border(
    out: &mut String,
    opts: &LayoutOptions,
    content: &Vec<String>,
    m: Metrics,
    border: char,
)
    requires
        measure_spec(opts, lines_of(content@), m),
        border == opts.wall_char(),
    ensures
        final(out)@ == old(out)@ + opts.top_border(lines_of(content@)),
{
    push_repeated(out, ' ', opts.move_offset);
    push_open(out, opts, border);
    push_repeated(out, border, m.width);
    push_char(out, '\n');
    assert(out@ =~= old(out)@ + opts.top_border(lines_of(content@)));
}

/// Appends the bottom border row.
fn push_bottom_border(
    out: &mut String,
    opts: &LayoutOptions,
    content: &Vec<String>,
    m: Metrics,
    border: char,
)
    requires
        measure_spec(opts, lines_of(content@), m),
        border == opts.wall_char(),
    ensures
        final(out)@ == old(out)@ + opts.bottom_border(lines_of(content@)),
{
    push_lead(out, opts);
    push_repeated(out, border, m.width);
    push_close(out, opts, border);
    push_char(out, '\n');
    assert(out@ =~= old(out)@ + opts.bottom_border(lines_of(content@)));
}

/// Appends the rows of height padding.
fn push_pad_rows(
    out: &mut String,
    opts: &LayoutOptions,
    content: &Vec<String>,
    m: Metrics,
    wall: &String,
)
    requires
        measure_spec(opts, lines_of(content@), m),
        wall@ == opts.wall_string(),
    ensures
        final(out)@ == old(out)@ + rows_repeated(
            opts.pad_row(lines_of(content@)),
            opts.height_pad as nat,
        ),
{
    let ghost lines = lines_of(content@);
    let ghost row = opts.pad_row(lines);
    let mut i: usize = 0;
    assert(out@ =~= old(out)@ + rows_repeated(row, 0));
    while i < opts.height_pad
        invariant
            i <= opts.height_pad,
            lines == lines_of(content@),
            row == opts.pad_row(lines),
            measure_spec(opts, lines, m),
            wall@ == opts.wall_string(),
            out@ == old(out)@ + rows_repeated(row, i as nat),
        decreases opts.height_pad - i,
    {
        let ghost before = out@;
        push_lead(out, opts);
        out.append(wall.as_str());
        push_repeated(out, ' ', m.inner_width);
        out.append(wall.as_str());
        push_char(out, '\n');
        i += 1;
        assert(out@ =~= before + row);
        assert(out@ =~= old(out)@ + rows_repeated(row, i as nat));
    }
}

/// Appends the row of each line, in order.
fn push_content_rows(
    out: &mut String,
    opts: &LayoutOptions,
    content: &Vec<String>,
    m: Metrics,
    wall: &String,
)
    requires
        measure_spec(opts, lines_of(content@), m),
        wall@ == opts.wall_string(),
    ensures
        final(out)@ == old(out)@ + opts.content_rows(
            lines_of(content@),
            lines_of(content@).len(),
        ),
{
    let ghost lines = lines_of(content@);
    let mut i: usize = 0;
    assert(out@ =~= old(out)@ + opts.content_rows(lines, 0));
    while i < content.len()
        invariant
            i <= content.len(),
            lines == lines_of(content@),
            measure_spec(opts, lines, m),
            wall@ == opts.wall_string(),
            out@ == old(out)@ + opts.content_rows(lines, i as nat),
        decreases content.len() - i,
    {
        let ghost before = out@;
        let line = content[i].as_str();
        let n = line.unicode_len();
        proof {
            crate::text::longest_line_bounds(lines, i as int);
        }
        push_lead(out, opts);
        out.append(wall.as_str());
        push_repeated(out, ' ', opts.width_pad);
        push_repeated(out, ' ', opts.left_pad);
        out.append(line);
        push_repeated(out, ' ', m.longest - n);
        push_repeated(out, ' ', opts.right_pad);
        push_repeated(out, ' ', opts.width_pad);
        out.append(wall.as_str());
        push_char(out, '\n');
        i += 1;
        assert(out@ =~= before + opts.content_row(lines, lines[i - 1]));
        assert(out@ =~= old(out)@ + opts.content_rows(lines, i as nat));
    }
}

/// The text that is written to a target: the rendered box, followed by a
/// line feed where the box stands at the start of the target.
pub fn insertion_text(rendered: String, append_mode: bool) -> (text: String)
    ensures
        text@ == rendered@ + (if append_mode {
            Seq::empty()
        } else {
            newline()
        }),
{
    let mut text = rendered;
    if !append_mode {
        push_char(&mut text, '\n');
    }
    assert(text@ =~= rendered@ + (if append_mode {
        Seq::<char>::empty()
    } else {
        newline()
    }));
    text
}

/// Renders `content` in its box.
///
/// No line at all is `EmptyContent`. Any other content is rendered, and the
/// text is exactly `opts.rendered` of its lines: the banner if a title is
/// set, the top border, the rows of height padding, one row for each line in
/// order, the rows of height padding again and the bottom border, each row
/// ended by a line feed, all measured in characters.
pub fn render(content: &Vec<String>, opts: &LayoutOptions) -> (r: Result<String, RenderError>)
    requires
        content@.len() > 0 ==> opts.fits(lines_of(content@)),
    ensures
        content@.len() == 0 <==> r == Err::<String, RenderError>(RenderError::EmptyContent),
        content@.len() > 0 ==> r is Ok,
        r matches Ok(text) ==> text@ == opts.rendered(lines_of(content@)),
{
    if content.len() == 0 {
        return Err(RenderError::EmptyContent);
    }
    let ghost lines = lines_of(content@);
    let m = measure(content, opts).unwrap();
    let wall = wall_of(opts);
    let border = opts.symbol.as_str().get_char(0);
    let mut out = String::new();
    if opts.append_mode {
        push_char(&mut out, '\n');
    }
    assert(out@ =~= opts.prefix());
    push_title_block(&mut out, opts, content, m, &wall, border);
    push_top_border(&mut out, opts, content, m, border);
    push_pad_rows(&mut out, opts, content, m, &wall);
    push_content_rows(&mut out, opts, content, m, &wall);
    push_pad_rows(&mut out, opts, content, m, &wall);
    push_bottom_border(&mut out, opts, content, m, border);
    Ok(out)
}

} // verus!
