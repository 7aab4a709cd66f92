//! The input buffer and cursor model.  The line under edit is held as a
//! vector of Unicode scalar values and the cursor counts characters, not
//! bytes, so every cursor position is a character boundary by construction
//! and insert/delete can never split a multi-byte character.

use vstd::prelude::*;

verus! {

/// One line of text under edit, with a logical cursor measured in
/// character units: `cursor` characters sit to the left of the caret.
pub struct InputBuffer {
    pub chars: Vec<char>,
    pub cursor: usize,
}

impl View for InputBuffer {
    type V = Seq<char>;

    open spec fn view(&self) -> Seq<char> {
        self.chars@
    }
}

impl InputBuffer {
    /// The cursor never leaves the buffer: at most every character sits
    /// left of the caret.
    pub open spec fn wf(self) -> bool {
        self.cursor <= self.chars@.len()
    }

    /// An empty line with the caret at the start.
    pub fn new() -> (r: InputBuffer)
        ensures
            r@ == Seq::<char>::empty(),
            r.cursor == 0,
            r.wf(),
    {
        InputBuffer { chars: Vec::new(), cursor: 0 }
    }

    /// The line as a string, for display.
    pub fn text(&self) -> (r: String)
        ensures
            r@ == self@,
    {
        crate::text::string_of(&self.chars)
    }

    /// The number of characters in the line.
    pub fn char_count(&self) -> (r: usize)
        ensures
            r == self@.len(),
    {
        self.chars.len()
    }

    /// Inserts `c` at the caret and moves the caret past it.
    pub fn insert_char(&mut self, c: char)
        requires
            old(self).wf(),
            old(self)@.len() < usize::MAX,
        ensures
            final(self).wf(),
            final(self)@ == old(self)@.insert(old(self).cursor as int, c),
            final(self).cursor == old(self).cursor + 1,
    {
        self.chars.insert(self.cursor, c);
        self.cursor = self.cursor + 1;
    }

    /// Backspace: removes the character just left of the caret and moves
    /// the caret back.  At the start of the line it is a no-op, reported
    /// by the `false` result.
    pub fn delete_before_cursor(&mut self) -> (deleted: bool)
        requires
            old(self).wf(),
        ensures
            final(self).wf(),
            deleted == (old(self).cursor > 0),
            old(self).cursor == 0 ==> final(self)@ == old(self)@ && final(self).cursor == old(
                self,
            ).cursor,
            old(self).cursor > 0 ==> final(self)@ == old(self)@.remove(old(self).cursor - 1)
                && final(self).cursor == old(self).cursor - 1,
    {
        if self.cursor == 0 {
            false
        } else {
            self.chars.remove(self.cursor - 1);
            self.cursor = self.cursor - 1;
            true
        }
    }

    /// Moves the caret one character left, stopping at the start.
    pub fn move_left(&mut self)
        requires
            old(self).wf(),
        ensures
            final(self).wf(),
            final(self)@ == old(self)@,
            final(self).cursor == step_left(old(self).cursor as nat),
    {
        if self.cursor > 0 {
            self.cursor = self.cursor - 1;
        }
    }

    /// Moves the caret one character right, stopping at the end.
    pub fn move_right(&mut self)
        requires
            old(self).wf(),
        ensures
            final(self).wf(),
            final(self)@ == old(self)@,
            final(self).cursor == step_right(old(self).cursor as nat, old(self)@.len()),
    {
        if self.cursor < self.chars.len() {
            self.cursor = self.cursor + 1;
        }
    }

    /// Moves the caret past the last character.
    pub fn move_to_end(&mut self)
        requires
            old(self).wf(),
        ensures
            final(self).wf(),
            final(self)@ == old(self)@,
            final(self).cursor == final(self)@.len(),
    {
        self.cursor = self.chars.len();
    }

    /// Empties the line and resets the caret.
    pub fn clear(&mut self)
        ensures
            final(self).wf(),
            final(self)@ == Seq::<char>::empty(),
            final(self).cursor == 0,
    {
        self.chars.clear();
        self.cursor = 0;
    }

    /// Replaces the whole line and puts the caret at its end.
    pub fn set_text_end(&mut self, text: Vec<char>)
        ensures
            final(self).wf(),
            final(self)@ == text@,
            final(self).cursor == text@.len(),
    {
        self.cursor = text.len();
        self.chars = text;
    }
}

/// Stepping left and then right from any interior caret position restores
/// it, and the converse holds away from the end of the line; the caret
/// never leaves the buffer.  (At position 0 a left step is a clamped no-op,
/// so a right step afterwards drifts to 1 on a non-empty line; that start
/// position is excluded.)
pub proof fn lemma_cursor_round_trip(len: nat, c: nat)
    requires
        c <= len,
    ensures
        0 < c ==> step_right(step_left(c), len) == c,
        c < len ==> step_left(step_right(c, len)) == c,
        step_left(c) <= len,
        step_right(c, len) <= len,
{
}

/// The caret after a clamped left step.
pub open spec fn step_left(c: nat) -> nat {
    if c > 0 {
        (c - 1) as nat
    } else {
        0
    }
}

/// The caret after a clamped right step.
pub open spec fn step_right(c: nat, len: nat) -> nat {
    if c < len {
        c + 1
    } else {
        c
    }
}

} // verus!
