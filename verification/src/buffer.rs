use vstd::prelude::*;

verus! {

/// The text-edit model shared by the rename, add and search prompts: a
/// line of text with a cursor, measured in characters. The cursor
/// always stays inside `[0, content.len()]`; every operation keeps it
/// there, so no operation can fail.
pub struct EditBuffer {
    pub content: Vec<char>,
    pub cursor: usize,
}

/// The content after inserting `c` at the cursor.
pub open spec fn spec_inserted(b: EditBuffer, c: char) -> Seq<char> {
    b.content@.insert(b.cursor as int, c)
}

/// The content after a backspace: unchanged at the left edge, else the
/// character just before the cursor is gone.
pub open spec fn spec_deleted(b: EditBuffer) -> Seq<char> {
    if b.cursor == 0 {
        b.content@
    } else {
        b.content@.remove(b.cursor - 1)
    }
}

/// The cursor one step to the left, stopped at 0.
pub open spec fn spec_cursor_left(b: EditBuffer) -> int {
    if b.cursor == 0 {
        0
    } else {
        b.cursor - 1
    }
}

/// The cursor one step to the right, stopped at the end of the content.
pub open spec fn spec_cursor_right(b: EditBuffer) -> int {
    if b.cursor >= b.content@.len() {
        b.cursor as int
    } else {
        b.cursor + 1
    }
}

impl EditBuffer {
    /// The cursor never leaves the closed range `[0, content.len()]`.
    pub open spec fn wf(self) -> bool {
        self.cursor <= self.content@.len()
    }

    pub fn new() -> (b: EditBuffer)
        ensures
            b.wf(),
            b.content@ == Seq::<char>::empty(),
            b.cursor == 0,
    {
        EditBuffer { content: Vec::new(), cursor: 0 }
    }

    /// Inserts `c` at the cursor and advances the cursor past it.
    pub fn insert_char(&mut self, c: char)
        requires
            old(self).wf(),
        ensures
            final(self).wf(),
            final(self).content@ == spec_inserted(*old(self), c),
            final(self).cursor == old(self).cursor + 1,
    {
        self.content.insert(self.cursor, c);
        proof {
            // The grown content still fits a Vec, so the new cursor
            // position fits a usize.
            vstd::std_specs::vec::axiom_spec_len(&self.content);
        }
        self.cursor = self.cursor + 1;
    }

    /// Backspace: removes the character just before the cursor and
    /// steps the cursor back; at the left edge it does nothing.
    pub fn delete_before_cursor(&mut self)
        requires
            old(self).wf(),
        ensures
            final(self).wf(),
            final(self).content@ == spec_deleted(*old(self)),
            final(self).cursor == spec_cursor_left(*old(self)),
    {
        if self.cursor > 0 {
            self.content.remove(self.cursor - 1);
            self.cursor = self.cursor - 1;
        }
    }

    /// Steps the cursor one character to the left, stopping at 0.
    pub fn move_left(&mut self)
        requires
            old(self).wf(),
        ensures
            final(self).wf(),
            final(self).content == old(self).content,
            final(self).cursor == spec_cursor_left(*old(self)),
    {
        if self.cursor > 0 {
            self.cursor = self.cursor - 1;
        }
    }

    /// Steps the cursor one character to the right, stopping at the end
    /// of the content.
    pub fn move_right(&mut self)
        requires
            old(self).wf(),
        ensures
            final(self).wf(),
            final(self).content == old(self).content,
            final(self).cursor == spec_cursor_right(*old(self)),
    {
        if self.cursor < self.content.len() {
            self.cursor = self.cursor + 1;
        }
    }

    /// Empties the content and rests the cursor at 0.
    pub fn clear(&mut self)
        ensures
            final(self).wf(),
            final(self).content@ == Seq::<char>::empty(),
            final(self).cursor == 0,
    {
        self.content.clear();
        self.cursor = 0;
    }

    /// Replaces the content wholesale and puts the cursor at its end,
    /// as the rename prompt does when it opens on an entry's name.
    pub fn set_text(&mut self, text: Vec<char>)
        ensures
            final(self).wf(),
            final(self).content@ == text@,
            final(self).cursor == text@.len(),
    {
        let n = text.len();
        self.content = text;
        self.cursor = n;
    }
}

} // verus!
