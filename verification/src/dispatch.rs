//! The key dispatcher: one function from the current state and one key
//! press to the next state and the quit decision, the whole dispatch table
//! stated once as a specification and proved of the executable handler.

use vstd::prelude::*;

use crate::state::{App, AppModel, Mode};

verus! {

/// A key press as the dispatcher distinguishes it. Keys the dispatch table
/// never mentions arrive as `Other`.
#[derive(Clone, Copy, Debug)]
pub enum Key {
    Esc,
    Enter,
    Backspace,
    Char(char),
    Other,
}

/// One key event: the key, and whether any modifier (Ctrl, Alt, ...) was
/// held. Modifier-qualified chords are ignored by design.
#[derive(Clone, Copy, Debug)]
pub struct KeyPress {
    pub key: Key,
    pub modified: bool,
}

/// The full dispatch table: the state after the press, and whether the
/// program should quit. Every combination the table does not list leaves
/// the state unchanged.
pub open spec fn step(m: AppModel, k: KeyPress) -> (AppModel, bool) {
    if k.modified {
        (m, false)
    } else {
        match m.mode {
            Mode::Normal => match k.key {
                Key::Esc => (m, true),
                Key::Char(c) => if c == 'i' {
                    (m.with_mode(Mode::Insert), false)
                } else if c == 'j' {
                    (m.select_next(), false)
                } else if c == 'k' {
                    (m.select_previous(), false)
                } else if c == 'd' {
                    (m.delete_selected(), false)
                } else if c == '?' {
                    (m.with_mode(Mode::Popup), false)
                } else {
                    (m, false)
                },
                _ => (m, false),
            },
            Mode::Insert => match k.key {
                Key::Esc => (m.with_mode(Mode::Normal), false),
                Key::Enter => (m.commit(), false),
                Key::Char(c) => (m.push_char(c), false),
                Key::Backspace => (m.backspace(), false),
                Key::Other => (m, false),
            },
            Mode::Popup => match k.key {
                Key::Esc => (m.with_mode(Mode::Normal), false),
                Key::Enter => (m.with_mode(Mode::Normal), false),
                Key::Char(c) => if c == '?' {
                    (m.with_mode(Mode::Normal), false)
                } else {
                    (m, false)
                },
                _ => (m, false),
            },
        }
    }
}

impl App {
    /// Route one key press to the active mode's handler. Returns true
    /// exactly when the program should quit (Esc in Normal mode).
    pub fn handle_key(&mut self, k: KeyPress) -> (quit: bool)
        requires
            old(self).model().wf(),
        ensures
            final(self).model() == step(old(self).model(), k).0,
            quit == step(old(self).model(), k).1,
            final(self).model().wf(),
    {
        if k.modified {
            return false;
        }
        match self.mode {
            Mode::Normal => match k.key {
                Key::Esc => true,
                Key::Char(c) => {
                    if c == 'i' {
                        self.enter_insert_mode();
                    } else if c == 'j' {
                        self.select_next();
                    } else if c == 'k' {
                        self.select_previous();
                    } else if c == 'd' {
                        self.delete_selected_item();
                    } else if c == '?' {
                        self.enter_popup_mode();
                    }
                    false
                },
                _ => false,
            },
            Mode::Insert => match k.key {
                Key::Esc => {
                    self.enter_normal_mode();
                    false
                },
                Key::Enter => {
                    self.push_input_to_items();
                    false
                },
                Key::Char(c) => {
                    self.push_input_char(c);
                    false
                },
                Key::Backspace => {
                    self.backspace_input();
                    false
                },
                Key::Other => false,
            },
            Mode::Popup => match k.key {
                Key::Esc | Key::Enter => {
                    self.enter_normal_mode();
                    false
                },
                Key::Char(c) => {
                    if c == '?' {
                        self.enter_normal_mode();
                    }
                    false
                },
                _ => false,
            },
        }
    }
}

} // verus!
