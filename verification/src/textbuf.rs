use vstd::prelude::*;
use crate::key::KeyInput;
use crate::strutil::{chars_to_string, str_chars};

verus! {

/// A one-line editable text buffer with a cursor, the state behind every
/// editable input field.  While a page is in its edit sub-state, key events
/// are forwarded here verbatim.
pub struct InputBuffer {
    pub chars: Vec<char>,
    pub cursor: usize,
}

impl InputBuffer {
    /// The cursor always sits on a position of the text, the end included.
    pub open spec fn wf(&self) -> bool {
        self.cursor <= self.chars@.len()
    }

    pub fn new() -> (r: InputBuffer)
        ensures
            r.chars@ == Seq::<char>::empty(),
            r.cursor == 0,
            r.wf(),
    {
        InputBuffer { chars: Vec::new(), cursor: 0 }
    }

    /// A buffer holding `value`, cursor at the end.
    pub fn new_with(value: &str) -> (r: InputBuffer)
        ensures
            r.chars@ == value@,
            r.cursor == value@.len(),
            r.wf(),
    {
        let chars = str_chars(value);
        let cursor = chars.len();
        InputBuffer { chars, cursor }
    }

    /// Replaces the whole text; the cursor moves to the end.
    pub fn set_value(&mut self, value: &str)
        ensures
            final(self).chars@ == value@,
            final(self).cursor == value@.len(),
            final(self).wf(),
    {
        self.chars = str_chars(value);
        self.cursor = self.chars.len();
    }

    /// The buffer text as a string.
    pub fn value(&self) -> (r: String)
        ensures
            r@ == self.chars@,
    {
        chars_to_string(&self.chars)
    }

    pub fn is_empty(&self) -> (r: bool)
        ensures
            r == (self.chars@.len() == 0),
    {
        self.chars.len() == 0
    }

    /// One editing step: what the text and the cursor become when the key is
    /// forwarded into the buffer.  Keys that do not edit leave both alone.
    pub open spec fn spec_edit(text: Seq<char>, cursor: int, key: KeyInput) -> (Seq<char>, int) {
        match key {
            KeyInput::Char(c) => (text.insert(cursor, c), cursor + 1),
            KeyInput::Backspace => if cursor > 0 {
                (text.remove(cursor - 1), cursor - 1)
            } else {
                (text, cursor)
            },
            KeyInput::Delete => if cursor < text.len() {
                (text.remove(cursor), cursor)
            } else {
                (text, cursor)
            },
            KeyInput::Left => (text, if cursor > 0 {
                cursor - 1
            } else {
                0
            }),
            KeyInput::Right => (text, if cursor < text.len() {
                cursor + 1
            } else {
                cursor
            }),
            KeyInput::Home => (text, 0),
            KeyInput::End => (text, text.len() as int),
            _ => (text, cursor),
        }
    }

    /// Applies one forwarded key to the buffer.
    pub fn handle_key(&mut self, key: KeyInput)
        requires
            old(self).wf(),
        ensures
            final(self).wf(),
            (final(self).chars@, final(self).cursor as int) == Self::spec_edit(
                old(self).chars@,
                old(self).cursor as int,
                key,
            ),
    {
        match key {
            KeyInput::Char(c) => {
                self.chars.insert(self.cursor, c);
                proof {
                    vstd::std_specs::vec::axiom_spec_len(&self.chars);
                }
                self.cursor = self.cursor + 1;
            },
            KeyInput::Backspace => {
                if self.cursor > 0 {
                    self.chars.remove(self.cursor - 1);
                    self.cursor = self.cursor - 1;
                }
            },
            KeyInput::Delete => {
                if self.cursor < self.chars.len() {
                    self.chars.remove(self.cursor);
                }
            },
            KeyInput::Left => {
                if self.cursor > 0 {
                    self.cursor = self.cursor - 1;
                }
            },
            KeyInput::Right => {
                if self.cursor < self.chars.len() {
                    self.cursor = self.cursor + 1;
                }
            },
            KeyInput::Home => {
                self.cursor = 0;
            },
            KeyInput::End => {
                self.cursor = self.chars.len();
            },
            _ => {},
        }
    }
}

} // verus!
