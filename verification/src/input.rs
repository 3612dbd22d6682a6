//! The text-input buffer shared by the search, path-navigator and
//! bookmark-naming modes, and the decoded key events that drive it.
//!
//! A buffer holds its text as characters together with a cursor offset in
//! `[0, len]` and a `typing` flag: `typing` is true until Enter commits
//! the buffer once, after which single-letter shortcuts apply.

use vstd::prelude::*;

verus! {

/// A decoded key, already stripped of device details.
#[derive(Clone, Copy, Debug)]
pub enum KeyCode {
    Char(char),
    Backspace,
    Enter,
    Esc,
    Left,
    Right,
    Up,
    Down,
    Tab,
    BackTab,
    Other,
}

/// A key press together with whether Control was held.
#[derive(Clone, Copy, Debug)]
pub struct KeyEvent {
    pub code: KeyCode,
    pub ctrl: bool,
}

impl KeyEvent {
    /// A plain press of `code` without modifiers.
    pub fn plain(code: KeyCode) -> (r: KeyEvent)
        ensures
            r.code == code,
            !r.ctrl,
    {
        KeyEvent { code, ctrl: false }
    }
}

/// The mathematical content of an input buffer.
#[verifier::ext_equal]
pub struct InputModelV {
    pub typing: bool,
    pub input: Seq<char>,
    pub cursor: int,
}

/// One live text-input buffer.
#[derive(Debug)]
pub struct InputModel {
    /// True while the buffer is still being typed: Enter has not yet
    /// committed it.
    pub typing: bool,
    /// The buffer text.
    pub input: Vec<char>,
    /// The cursor offset, in characters, within `[0, input.len()]`.
    pub cursor_position: usize,
}

impl View for InputModel {
    type V = InputModelV;

    open spec fn view(&self) -> InputModelV {
        InputModelV { typing: self.typing, input: self.input@, cursor: self.cursor_position as int }
    }
}

impl InputModel {
    /// The cursor stays inside the text.
    pub open spec fn wf(&self) -> bool {
        0 <= self@.cursor <= self@.input.len()
    }

    /// A fresh buffer holding `text` with the cursor at its end.
    pub fn new(typing: bool, text: Vec<char>) -> (r: InputModel)
        ensures
            r@.typing == typing,
            r@.input == text@,
            r@.cursor == text@.len(),
            r.wf(),
    {
        let cursor = text.len();
        InputModel { typing, input: text, cursor_position: cursor }
    }

    /// Inserts a character at the cursor and moves the cursor past it.
    pub fn insert(&mut self, c: char)
        requires
            old(self).wf(),
        ensures
            final(self).wf(),
            final(self)@.typing == old(self)@.typing,
            final(self)@.input == old(self)@.input.insert(old(self)@.cursor, c),
            final(self)@.cursor == old(self)@.cursor + 1,
    {
        self.input.insert(self.cursor_position, c);
        let n = self.input.len();
        proof {
            assert(self.cursor_position < n);
        }
        self.cursor_position = self.cursor_position + 1;
    }

    /// Deletes the character before the cursor, if any, and moves the
    /// cursor back onto the gap.
    pub fn backspace(&mut self)
        requires
            old(self).wf(),
        ensures
            final(self).wf(),
            final(self)@.typing == old(self)@.typing,
            old(self)@.cursor == 0 ==> final(self)@ == old(self)@,
            old(self)@.cursor > 0 ==> final(self)@.input == old(self)@.input.remove(
                old(self)@.cursor - 1,
            ) && final(self)@.cursor == old(self)@.cursor - 1,
    {
        if self.cursor_position == 0 {
            return ;
        }
        self.input.remove(self.cursor_position - 1);
        self.cursor_position = self.cursor_position - 1;
    }

    /// Moves the cursor one character left, stopping at the start.
    pub fn move_cursor_left(&mut self)
        requires
            old(self).wf(),
        ensures
            final(self).wf(),
            final(self)@.typing == old(self)@.typing,
            final(self)@.input == old(self)@.input,
            final(self)@.cursor == if old(self)@.cursor > 0 {
                old(self)@.cursor - 1
            } else {
                0
            },
    {
        if self.cursor_position > 0 {
            self.cursor_position = self.cursor_position - 1;
        }
    }

    /// Moves the cursor one character right, stopping at the end.
    pub fn move_cursor_right(&mut self)
        requires
            old(self).wf(),
        ensures
            final(self).wf(),
            final(self)@.typing == old(self)@.typing,
            final(self)@.input == old(self)@.input,
            final(self)@.cursor == if old(self)@.cursor < old(self)@.input.len() {
                old(self)@.cursor + 1
            } else {
                old(self)@.cursor
            },
    {
        if self.cursor_position < self.input.len() {
            self.cursor_position = self.cursor_position + 1;
        }
    }

    /// Clamps a candidate cursor offset into the text.
    pub fn clamp_cursor(&self, pos: usize) -> (r: usize)
        ensures
            r == if pos <= self@.input.len() {
                pos as int
            } else {
                self@.input.len() as int
            },
    {
        if pos <= self.input.len() {
            pos
        } else {
            self.input.len()
        }
    }

    /// The buffer after applying one editing key: characters insert,
    /// Backspace deletes, Left and Right move the cursor, and every
    /// other key leaves the buffer unchanged.
    pub open spec fn spec_edit(pre: InputModelV, key: KeyEvent) -> InputModelV {
        match key.code {
            KeyCode::Char(c) => InputModelV {
                input: pre.input.insert(pre.cursor, c),
                cursor: pre.cursor + 1,
                ..pre
            },
            KeyCode::Backspace => if pre.cursor > 0 {
                InputModelV { input: pre.input.remove(pre.cursor - 1), cursor: pre.cursor - 1, ..pre }
            } else {
                pre
            },
            KeyCode::Left => InputModelV {
                cursor: if pre.cursor > 0 {
                    pre.cursor - 1
                } else {
                    0
                },
                ..pre
            },
            KeyCode::Right => InputModelV {
                cursor: if pre.cursor < pre.input.len() {
                    pre.cursor + 1
                } else {
                    pre.cursor
                },
                ..pre
            },
            _ => pre,
        }
    }

    /// Routes one key into the buffer.
    pub fn handle_key_event(&mut self, key: KeyEvent)
        requires
            old(self).wf(),
        ensures
            final(self).wf(),
            final(self)@ == Self::spec_edit(old(self)@, key),
    {
        match key.code {
            KeyCode::Char(c) => self.insert(c),
            KeyCode::Backspace => self.backspace(),
            KeyCode::Left => self.move_cursor_left(),
            KeyCode::Right => self.move_cursor_right(),
            _ => {},
        }
    }
}

/// Whether a text-input mode is live, and with what buffer.
#[derive(Debug)]
pub enum InputState {
    Normal,
    Active(InputModel),
}

impl View for InputState {
    type V = Option<InputModelV>;

    open spec fn view(&self) -> Option<InputModelV> {
        match self {
            InputState::Normal => None,
            InputState::Active(m) => Some(m@),
        }
    }
}

impl InputState {
    /// Every live buffer keeps its cursor inside its text.
    pub open spec fn wf(&self) -> bool {
        match self {
            InputState::Normal => true,
            InputState::Active(m) => m.wf(),
        }
    }
}

impl Default for InputState {
    /// No input mode is live at first.
    fn default() -> (r: Self)
        ensures
            r@ is None,
            r.wf(),
    {
        InputState::Normal
    }
}

} // verus!
