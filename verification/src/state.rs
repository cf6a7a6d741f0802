//! Application state: the mode, the item list, the selection cursor and the
//! input buffer, with the mutation operations triggered by key events.

use vstd::prelude::*;

verus! {

/// The modal state: which key handler is active and which band of the
/// screen is highlighted.
#[derive(Clone, Copy, Debug, PartialEq, Eq, Structural)]
pub enum Mode {
    Normal,
    Insert,
    Popup,
}

/// The whole application state. The intended invariant (`AppModel::wf` on
/// `self.model()`) is that the cursor is present and in bounds exactly when
/// the item list is non-empty.
pub struct App {
    pub selected_list_index: Option<usize>,
    pub items: Vec<String>,
    pub input: String,
    pub mode: Mode,
}

/// The mathematical model of an [`App`]: items and input as character
/// sequences, the cursor as an optional mathematical integer.
#[verifier::ext_equal]
pub struct AppModel {
    pub mode: Mode,
    pub items: Seq<Seq<char>>,
    pub selected: Option<int>,
    pub input: Seq<char>,
}

impl AppModel {
    /// Cursor invariant: an in-bounds index when the list is non-empty,
    /// absent when the list is empty.
    pub open spec fn wf(self) -> bool {
        match self.selected {
            Some(i) => 0 <= i < self.items.len(),
            None => self.items.len() == 0,
        }
    }

    /// Pure mode assignment; nothing else changes.
    pub open spec fn with_mode(self, m: Mode) -> AppModel {
        AppModel { mode: m, ..self }
    }

    /// Cursor forward with wraparound: past the last index it returns to 0.
    /// No-op when the cursor is absent.
    pub open spec fn select_next(self) -> AppModel {
        match self.selected {
            None => self,
            Some(i) => AppModel {
                selected: Some(if i + 1 < self.items.len() { i + 1 } else { 0 }),
                ..self
            },
        }
    }

    /// Cursor backward with wraparound: before 0 it wraps to the last index.
    /// No-op when the cursor is absent.
    pub open spec fn select_previous(self) -> AppModel {
        match self.selected {
            None => self,
            Some(i) => AppModel {
                selected: Some(if i > 0 { i - 1 } else { self.items.len() - 1 }),
                ..self
            },
        }
    }

    /// Commit of the input buffer: the buffer (even when empty) is appended
    /// to the item list and cleared, an absent cursor becomes 0, and the
    /// mode returns to Normal.
    pub open spec fn commit(self) -> AppModel {
        AppModel {
            mode: Mode::Normal,
            items: self.items.push(self.input),
            selected: if self.selected is None { Some(0) } else { self.selected },
            input: Seq::<char>::empty(),
        }
    }

    /// Removal of the selected item. Afterwards the cursor is absent if the
    /// list became empty, re-clamped to the new last index if it pointed at
    /// the removed last item, and otherwise left at the same numeric index.
    /// No-op when the cursor is absent.
    pub open spec fn delete_selected(self) -> AppModel {
        match self.selected {
            None => self,
            Some(i) => {
                let remaining = self.items.remove(i);
                AppModel {
                    items: remaining,
                    selected: if remaining.len() == 0 {
                        None
                    } else if i == remaining.len() {
                        Some(i - 1)
                    } else {
                        Some(i)
                    },
                    ..self
                }
            },
        }
    }

    /// Unconditional append of one character to the input buffer.
    pub open spec fn push_char(self, c: char) -> AppModel {
        AppModel { input: self.input.push(c), ..self }
    }

    /// Removal of the last character of the input buffer; no-op when the
    /// buffer is empty.
    pub open spec fn backspace(self) -> AppModel {
        if self.input.len() == 0 {
            self
        } else {
            AppModel { input: self.input.drop_last(), ..self }
        }
    }
}

/// Relies on `alloc::string::String::push`: appends the given character to
/// the end of the string.
pub assume_specification[ String::push ](s: &mut String, ch: char)
    ensures
        final(s)@ == old(s)@.push(ch),
;

/// Relies on `alloc::string::String::pop`: removes the last character from
/// the string and returns it, returning `None` on an empty string.
pub assume_specification[ String::pop ](s: &mut String) -> (r: Option<char>)
    ensures
        old(s)@.len() == 0 ==> r is None && final(s)@ == old(s)@,
        old(s)@.len() > 0 ==> r == Some(old(s)@.last()) && final(s)@ == old(s)@.drop_last(),
;

/// A value-level push on a `Vec<String>` pushes the string's characters
/// onto the deep view.
proof fn lemma_push_deep_view(v1: Vec<String>, v2: Vec<String>, s: String)
    requires
        v2@ == v1@.push(s),
    ensures
        v2.deep_view() == v1.deep_view().push(s@),
{
    assert(v2.deep_view() =~= v1.deep_view().push(s@));
}

/// A value-level remove on a `Vec<String>` removes the same index from the
/// deep view.
proof fn lemma_remove_deep_view(v1: Vec<String>, v2: Vec<String>, i: int)
    requires
        0 <= i < v1@.len(),
        v2@ == v1@.remove(i),
    ensures
        v2.deep_view() == v1.deep_view().remove(i),
{
    assert(v2.deep_view() =~= v1.deep_view().remove(i));
}

impl App {
    /// The mathematical model this state denotes.
    pub open spec fn model(self) -> AppModel {
        AppModel {
            mode: self.mode,
            items: self.items.deep_view(),
            selected: match self.selected_list_index {
                Some(i) => Some(i as int),
                None => None,
            },
            input: self.input@,
        }
    }

    /// Runtime check of the cursor invariant, for unverified callers.
    pub fn is_well_formed(&self) -> (b: bool)
        ensures
            b == self.model().wf(),
    {
        match self.selected_list_index {
            Some(i) => i < self.items.len(),
            None => self.items.len() == 0,
        }
    }

    pub fn enter_insert_mode(&mut self)
        ensures
            final(self).model() == old(self).model().with_mode(Mode::Insert),
    {
        self.mode = Mode::Insert;
        proof {
            assert(self.model() =~= old(self).model().with_mode(Mode::Insert));
        }
    }

    pub fn enter_normal_mode(&mut self)
        ensures
            final(self).model() == old(self).model().with_mode(Mode::Normal),
    {
        self.mode = Mode::Normal;
        proof {
            assert(self.model() =~= old(self).model().with_mode(Mode::Normal));
        }
    }

    pub fn enter_popup_mode(&mut self)
        ensures
            final(self).model() == old(self).model().with_mode(Mode::Popup),
    {
        self.mode = Mode::Popup;
        proof {
            assert(self.model() =~= old(self).model().with_mode(Mode::Popup));
        }
    }

    pub fn select_next(&mut self)
        requires
            old(self).model().wf(),
        ensures
            final(self).model() == old(self).model().select_next(),
            final(self).model().wf(),
    {
        match self.selected_list_index {
            Some(n) => {
                if n != self.items.len() - 1 {
                    self.selected_list_index = Some(n + 1);
                } else {
                    self.selected_list_index = Some(0);
                }
            },
            None => {},
        }
        proof {
            assert(self.model() =~= old(self).model().select_next());
        }
    }

    pub fn select_previous(&mut self)
        requires
            old(self).model().wf(),
        ensures
            final(self).model() == old(self).model().select_previous(),
            final(self).model().wf(),
    {
        match self.selected_list_index {
            Some(n) => {
                if n > 0 {
                    self.selected_list_index = Some(n - 1);
                } else {
                    self.selected_list_index = Some(self.items.len() - 1);
                }
            },
            None => {},
        }
        proof {
            assert(self.model() =~= old(self).model().select_previous());
        }
    }

    /// Commit the input buffer: append it (a copy) to the item list, clear
    /// it, seed an absent cursor with 0, and return to Normal mode.
    pub fn push_input_to_items(&mut self)
        ensures
            final(self).model() == old(self).model().commit(),
            old(self).model().wf() ==> final(self).model().wf(),
    {
        let committed = self.input.clone();
        self.input = String::new();
        self.items.push(committed);
        proof {
            lemma_push_deep_view(old(self).items, self.items, committed);
        }
        if self.selected_list_index.is_none() {
            self.selected_list_index = Some(0);
        }
        self.enter_normal_mode();
        proof {
            assert(self.model() =~= old(self).model().commit());
        }
    }

    pub fn delete_selected_item(&mut self)
        requires
            old(self).model().wf(),
        ensures
            final(self).model() == old(self).model().delete_selected(),
            final(self).model().wf(),
    {
        match self.selected_list_index {
            Some(n) => {
                self.items.remove(n);
                if self.items.len() == 0 {
                    self.selected_list_index = None;
                } else if self.items.len() == n {
                    // The removed index was the last valid one: re-clamp to
                    // the new last index (the boundary case of the
                    // select-previous wraparound rule).
                    self.selected_list_index = Some(n - 1);
                }
                proof {
                    lemma_remove_deep_view(old(self).items, self.items, n as int);
                }
            },
            None => {},
        }
        proof {
            assert(self.model() =~= old(self).model().delete_selected());
        }
    }

    /// Append one typed character to the input buffer.
    pub fn push_input_char(&mut self, c: char)
        ensures
            final(self).model() == old(self).model().push_char(c),
    {
        self.input.push(c);
        proof {
            assert(self.model() =~= old(self).model().push_char(c));
        }
    }

    /// Remove the last character of the input buffer, if any.
    pub fn backspace_input(&mut self)
        ensures
            final(self).model() == old(self).model().backspace(),
    {
        self.input.pop();
        proof {
            assert(self.model() =~= old(self).model().backspace());
        }
    }
}

impl Default for App {
    /// The seeded demo state: three items, the middle one selected, an
    /// empty input buffer, Normal mode.
    fn default() -> (a: App)
        ensures
            a.mode == Mode::Normal,
            a.selected_list_index == Some(1usize),
            a.input@ == Seq::<char>::empty(),
            a.items.deep_view() == seq!["aaa"@, "bbb"@, "ccc"@],
            a.model().wf(),
    {
        let mut items: Vec<String> = Vec::new();
        items.push("aaa".to_owned());
        items.push("bbb".to_owned());
        items.push("ccc".to_owned());
        proof {
            assert(items.deep_view() =~= seq!["aaa"@, "bbb"@, "ccc"@]);
        }
        App { selected_list_index: Some(1), items, input: String::new(), mode: Mode::Normal }
    }
}

} // verus!
