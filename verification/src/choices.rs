//! From the choices that a caller made, each one optional, to the options of
//! a rendering; choices that exclude each other are refused.

use vstd::prelude::*;
use vstd::string::*;
use crate::layout::{default_symbol, BoxStyle, LayoutOptions};

verus! {

/// What a caller chose. `None` leaves a choice at its default.
#[derive(Debug)]
pub struct Choices {
    pub symbol: Option<String>,
    pub wall: Option<String>,
    pub title: Option<String>,
    pub width_pad: Option<usize>,
    pub height_pad: Option<usize>,
    pub left_pad: Option<usize>,
    pub right_pad: Option<usize>,
    pub move_offset: Option<usize>,
    /// The box goes to the end of the target.
    pub append: bool,
    /// The line-comment style.
    pub line_comment: bool,
    /// The box without comment delimiters.
    pub box_only: bool,
    /// A file or directory is to receive the box.
    pub has_target: bool,
}

/// Why a set of choices gives no options.
#[derive(Clone, Copy, Debug, PartialEq, Eq, Structural)]
pub enum ChoiceError {
    /// The line-comment style together with a symbol, a wall or the
    /// box-only style.
    StyleConflict,
    /// A move offset without the box-only style.
    MoveWithoutBoxOnly,
    /// The box-only style together with a target to write to.
    BoxOnlyWithTarget,
    /// A symbol without a character.
    EmptySymbol,
}

impl Choices {
    /// The first reason, in the order of `ChoiceError`, for which the
    /// choices are refused.
    pub open spec fn refusal(&self) -> Option<ChoiceError> {
        if self.line_comment && (self.symbol is Some || self.wall is Some || self.box_only) {
            Some(ChoiceError::StyleConflict)
        } else if self.move_offset is Some && !self.box_only {
            Some(ChoiceError::MoveWithoutBoxOnly)
        } else if self.box_only && self.has_target {
            Some(ChoiceError::BoxOnlyWithTarget)
        } else if self.symbol is Some && self.symbol->0@.len() == 0 {
            Some(ChoiceError::EmptySymbol)
        } else {
            None
        }
    }

    /// The style that the two style choices select.
    pub open spec fn style(&self) -> BoxStyle {
        if self.line_comment {
            BoxStyle::LineComment
        } else if self.box_only {
            BoxStyle::BoxOnly
        } else {
            BoxStyle::Block
        }
    }
}

/// The number chosen, or `default`.
pub fn number_or(choice: Option<usize>, default: usize) -> (n: usize)
    ensures
        n == (match choice {
            Some(k) => k,
            None => default,
        }),
{
    match choice {
        Some(k) => k,
        None => default,
    }
}

/// Resolves the choices into options.
///
/// Choices that exclude each other are refused before anything is rendered,
/// each with its reason. All others give the options that hold every value
/// chosen and, for the rest, the defaults: the symbol `*`, a width padding
/// of 2, and 0 for the other numbers.
pub fn resolve(choices: Choices) -> (r: Result<LayoutOptions, ChoiceError>)
    ensures
        match choices.refusal() {
            Some(e) => r == Err::<LayoutOptions, ChoiceError>(e),
            None => r matches Ok(o) && {
                &&& o.well_formed()
                &&& o.symbol@ == (match choices.symbol {
                    Some(s) => s@,
                    None => default_symbol(),
                })
                &&& o.wall == choices.wall
                &&& o.title == choices.title
                &&& o.width_pad == (match choices.width_pad {
                    Some(k) => k,
                    None => 2usize,
                })
                &&& o.height_pad == (match choices.height_pad {
                    Some(k) => k,
                    None => 0usize,
                })
                &&& o.left_pad == (match choices.left_pad {
                    Some(k) => k,
                    None => 0usize,
                })
                &&& o.right_pad == (match choices.right_pad {
                    Some(k) => k,
                    None => 0usize,
                })
                &&& o.move_offset == (match choices.move_offset {
                    Some(k) => k,
                    None => 0usize,
                })
                &&& o.style == choices.style()
                &&& o.append_mode == choices.append
            },
        },
{
    if choices.line_comment && (choices.symbol.is_some() || choices.wall.is_some()
        || choices.box_only) {
        return Err(ChoiceError::StyleConflict);
    }
    if choices.move_offset.is_some() && !choices.box_only {
        return Err(ChoiceError::MoveWithoutBoxOnly);
    }
    if choices.box_only && choices.has_target {
        return Err(ChoiceError::BoxOnlyWithTarget);
    }
    let style = if choices.line_comment {
        BoxStyle::LineComment
    } else if choices.box_only {
        BoxStyle::BoxOnly
    } else {
        BoxStyle::Block
    };
    let base = LayoutOptions::default();
    let symbol = match choices.symbol {
        Some(s) => {
            if s.as_str().unicode_len() == 0 {
                return Err(ChoiceError::EmptySymbol);
            }
            s
        },
        None => base.symbol,
    };
    Ok(
        LayoutOptions {
            symbol,
            wall: choices.wall,
            title: choices.title,
            width_pad: number_or(choices.width_pad, 2),
            height_pad: number_or(choices.height_pad, 0),
            left_pad: number_or(choices.left_pad, 0),
            right_pad: number_or(choices.right_pad, 0),
            move_offset: number_or(choices.move_offset, 0),
            style,
            append_mode: choices.append,
        },
    )
}

} // verus!
