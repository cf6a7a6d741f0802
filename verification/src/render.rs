//! The render contract: the fixed three-band layout percentages and the
//! per-frame plan (which band is highlighted, which item is selected,
//! whether the popup overlay is shown, and where the text cursor sits).
//! Drawing itself belongs to the terminal backend around this crate.

use vstd::prelude::*;

use unicode_width::UnicodeWidthStr;

use crate::state::{App, Mode};

verus! {

/// Height of the input band, in percent of the terminal area.
pub const INPUT_BAND_PERCENT: u16 = 10;

/// Height of the list band, in percent of the terminal area.
pub const LIST_BAND_PERCENT: u16 = 80;

/// Height of the reserved bottom band, in percent of the terminal area.
pub const FOOTER_BAND_PERCENT: u16 = 10;

/// Margin around the three stacked bands, in cells.
pub const FRAME_MARGIN: u16 = 1;

/// Width of the centered popup overlay, in percent of the full terminal.
pub const POPUP_WIDTH_PERCENT: u16 = 60;

/// Height of the centered popup overlay, in percent of the full terminal.
pub const POPUP_HEIGHT_PERCENT: u16 = 20;

/// The displayed column width of a string under East-Asian-wide rules:
/// a fold over its characters alone.
pub uninterp spec fn display_width_cjk(s: Seq<char>) -> nat;

/// Relies on `unicode_width::UnicodeWidthStr::width_cjk` for `str`: the
/// displayed column width is computed from the string's characters alone
/// (ambiguous-width characters counted as two columns), and an empty
/// string has width zero.
#[verifier::external_body]
fn str_width_cjk(s: &str) -> (w: usize)
    ensures
        w as nat == display_width_cjk(s@),
        s@.len() == 0 ==> w == 0,
{
    s.width_cjk()
}

/// Everything one frame of the fixed layout needs beyond the state itself:
/// which band is highlighted, the selected row, whether the popup overlay
/// is drawn, and the column of the text cursor inside the input band.
pub struct FramePlan {
    /// The input band is styled as active (Insert mode only).
    pub input_highlighted: bool,
    /// The list band is styled as active (Normal mode only).
    pub list_highlighted: bool,
    /// The centered popup overlay is drawn on top (Popup mode only).
    pub popup_visible: bool,
    /// The row of the item list to mark as selected, if any.
    pub selected: Option<usize>,
    /// Column of the text cursor inside the input band, one past the
    /// displayed width of the input buffer (and past the left border).
    /// Present exactly in Insert mode, when that column fits a `u16`.
    pub cursor_col: Option<u16>,
}

/// Compute the plan for one full redraw of the fixed layout.
pub fn frame_plan(app: &App) -> (p: FramePlan)
    ensures
        p.input_highlighted == (app.mode == Mode::Insert),
        p.list_highlighted == (app.mode == Mode::Normal),
        p.popup_visible == (app.mode == Mode::Popup),
        p.selected == app.selected_list_index,
        p.cursor_col == (if app.mode == Mode::Insert && display_width_cjk(app.input@) + 1
            <= u16::MAX {
            Some((display_width_cjk(app.input@) + 1) as u16)
        } else {
            None::<u16>
        }),
{
    let cursor_col: Option<u16> = match app.mode {
        Mode::Insert => {
            let w = str_width_cjk(app.input.as_str());
            if w < u16::MAX as usize {
                Some((w + 1) as u16)
            } else {
                None
            }
        },
        _ => None,
    };
    let input_highlighted = matches!(app.mode, Mode::Insert);
    let list_highlighted = matches!(app.mode, Mode::Normal);
    let popup_visible = matches!(app.mode, Mode::Popup);
    FramePlan {
        input_highlighted,
        list_highlighted,
        popup_visible,
        selected: app.selected_list_index,
        cursor_col,
    }
}

} // verus!
