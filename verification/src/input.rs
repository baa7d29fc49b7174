//! The single-line query buffer: a character vector plus a cursor, with
//! standard insert / backspace / delete / left / right semantics.

use vstd::prelude::*;

use crate::text::push_char;

verus! {

/// One edit applied to the query buffer.
#[derive(Debug, Clone, Copy, PartialEq, Eq, Structural)]
pub enum InputEdit {
    Insert(char),
    Backspace,
    Delete,
    Left,
    Right,
}

/// The single-line text buffer holding the current query.
#[derive(Debug)]
pub struct TextInput {
    pub text: Vec<char>,
    pub cursor: usize,
}

impl TextInput {
    /// The cursor always sits between 0 and the buffer length.
    pub open spec fn wf(self) -> bool {
        self.cursor <= self.text@.len()
    }

    pub fn new() -> (r: TextInput)
        ensures
            r.wf(),
            r.text@ == Seq::<char>::empty(),
            r.cursor == 0,
    {
        TextInput { text: Vec::new(), cursor: 0 }
    }

    /// The buffer contents as a string.
    pub fn value(&self) -> (r: String)
        ensures
            r@ == self.text@,
    {
        let mut r = String::new();
        let mut k: usize = 0;
        while k < self.text.len()
            invariant
                k <= self.text@.len(),
                r@ == self.text@.take(k as int),
            decreases self.text@.len() - k,
        {
            push_char(&mut r, self.text[k]);
            k = k + 1;
            proof {
                assert(r@ =~= self.text@.take(k as int));
            }
        }
        proof {
            assert(self.text@.take(self.text@.len() as int) =~= self.text@);
        }
        r
    }

    /// The buffer and cursor that applying `e` produces.
    pub open spec fn spec_apply(text: Seq<char>, cursor: int, e: InputEdit) -> (Seq<char>, int) {
        match e {
            InputEdit::Insert(c) => (text.insert(cursor, c), cursor + 1),
            InputEdit::Backspace => if cursor > 0 {
                (text.remove(cursor - 1), cursor - 1)
            } else {
                (text, cursor)
            },
            InputEdit::Delete => if cursor < text.len() {
                (text.remove(cursor), cursor)
            } else {
                (text, cursor)
            },
            InputEdit::Left => (text, if cursor > 0 { cursor - 1 } else { 0 }),
            InputEdit::Right => (text, if cursor < text.len() { cursor + 1 } else { cursor as int }),
        }
    }

    pub fn apply(&mut self, e: InputEdit)
        requires
            old(self).wf(),
        ensures
            final(self).wf(),
            final(self).text@ == Self::spec_apply(old(self).text@, old(self).cursor as int, e).0,
            final(self).cursor as int == Self::spec_apply(old(self).text@, old(self).cursor as int, e).1,
    {
        match e {
            InputEdit::Insert(c) => {
                self.text.insert(self.cursor, c);
                let new_len = self.text.len();
                assert(self.cursor < new_len);
                self.cursor = self.cursor + 1;
            },
            InputEdit::Backspace => {
                if self.cursor > 0 {
                    self.text.remove(self.cursor - 1);
                    self.cursor = self.cursor - 1;
                }
            },
            InputEdit::Delete => {
                if self.cursor < self.text.len() {
                    self.text.remove(self.cursor);
                }
            },
            InputEdit::Left => {
                if self.cursor > 0 {
                    self.cursor = self.cursor - 1;
                }
            },
            InputEdit::Right => {
                if self.cursor < self.text.len() {
                    self.cursor = self.cursor + 1;
                }
            },
        }
    }
}

} // verus!
