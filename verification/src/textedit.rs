//! The text-input session: the buffer being typed and its cursor,
//! with character insertion, deletion and line-aware cursor moves.

use vstd::prelude::*;

use crate::geom::min_spec;
use crate::MAX_TEXT_LEN;

verus! {

/// Start index of the line containing position `pos`: the largest
/// index at most `pos` that is 0 or follows a line separator.
pub open spec fn line_begin(s: Seq<char>, pos: int) -> int
    decreases pos,
{
    if pos <= 0 {
        0
    } else if s[pos - 1] == '\n' {
        pos
    } else {
        line_begin(s, pos - 1)
    }
}

/// End index of the line containing position `pos`: the smallest
/// index at least `pos` that is the buffer end or holds a line
/// separator.
pub open spec fn line_end(s: Seq<char>, pos: int) -> int
    decreases s.len() - pos,
{
    if pos >= s.len() {
        s.len() as int
    } else if s[pos] == '\n' {
        pos
    } else {
        line_end(s, pos + 1)
    }
}

/// Where the cursor lands moving one line up: the first line snaps to
/// the buffer start; other lines keep the column, capped at the
/// previous line's length.
pub open spec fn cursor_up_spec(s: Seq<char>, pos: int) -> int {
    let b = line_begin(s, pos);
    if b == 0 {
        0
    } else {
        let pb = line_begin(s, b - 1);
        pb + min_spec(pos - b, b - 1 - pb)
    }
}

/// Where the cursor lands moving one line down: the last line snaps
/// to the buffer end; other lines keep the column, capped at the next
/// line's length.
pub open spec fn cursor_down_spec(s: Seq<char>, pos: int) -> int {
    let e = line_end(s, pos);
    if e == s.len() {
        s.len() as int
    } else {
        let ne = line_end(s, e + 1);
        e + 1 + min_spec(pos - line_begin(s, pos), ne - (e + 1))
    }
}

/// The line bounds around a valid position are ordered and in range.
pub proof fn lemma_line_bounds(s: Seq<char>, pos: int)
    requires
        0 <= pos <= s.len(),
    ensures
        0 <= line_begin(s, pos) <= pos,
        pos <= line_end(s, pos) <= s.len(),
    decreases s.len(),
{
    lemma_line_begin_bounds(s, pos);
    lemma_line_end_bounds(s, pos);
}

proof fn lemma_line_begin_bounds(s: Seq<char>, pos: int)
    requires
        0 <= pos,
    ensures
        0 <= line_begin(s, pos) <= pos,
    decreases pos,
{
    if pos > 0 && s[pos - 1] != '\n' {
        lemma_line_begin_bounds(s, pos - 1);
    }
}

proof fn lemma_line_end_bounds(s: Seq<char>, pos: int)
    requires
        pos <= s.len(),
    ensures
        pos <= line_end(s, pos) <= s.len(),
    decreases s.len() - pos,
{
    if pos < s.len() && s[pos] != '\n' {
        lemma_line_end_bounds(s, pos + 1);
    }
}

/// Finds the start of the line containing `pos`.
pub fn find_line_begin(s: &Vec<char>, pos: usize) -> (r: usize)
    requires
        pos <= s@.len(),
    ensures
        r as int == line_begin(s@, pos as int),
        r <= pos,
{
    let mut i: usize = pos;
    while i > 0 && s[i - 1] != '\n'
        invariant
            0 <= i <= pos <= s@.len(),
            line_begin(s@, pos as int) == line_begin(s@, i as int),
        decreases i,
    {
        i = i - 1;
    }
    i
}

/// Finds the end of the line containing `pos`.
pub fn find_line_end(s: &Vec<char>, pos: usize) -> (r: usize)
    requires
        pos <= s@.len(),
    ensures
        r as int == line_end(s@, pos as int),
        pos <= r && r <= s@.len(),
{
    let mut i: usize = pos;
    while i < s.len() && s[i] != '\n'
        invariant
            pos <= i <= s@.len(),
            line_end(s@, pos as int) == line_end(s@, i as int),
        decreases s@.len() - i,
    {
        i = i + 1;
    }
    i
}

/// The buffer being typed into a text element and the cursor inside
/// it.
pub struct TextSession {
    pub buffer: Vec<char>,
    pub cursor: usize,
}

impl TextSession {
    /// The cursor stays inside the buffer and the buffer below its
    /// cap.
    pub open spec fn wf(&self) -> bool {
        self.cursor as int <= self.buffer@.len() && self.buffer@.len() <= MAX_TEXT_LEN as int
    }

    /// An empty session, cursor at the start.
    pub fn new() -> (r: TextSession)
        ensures
            r.wf(),
            r.buffer@.len() == 0,
            r.cursor == 0,
    {
        TextSession { buffer: Vec::new(), cursor: 0 }
    }

    /// A session over existing content, cursor at its end.
    pub fn from_content(content: Vec<char>) -> (r: TextSession)
        requires
            content@.len() <= MAX_TEXT_LEN as int,
        ensures
            r.wf(),
            r.buffer@ == content@,
            r.cursor as int == content@.len(),
    {
        let cursor = content.len();
        TextSession { buffer: content, cursor }
    }

    /// Inserts `c` at the cursor and advances it; a no-op at the
    /// length cap.
    pub fn insert_char(&mut self, c: char)
        requires
            old(self).wf(),
        ensures
            final(self).wf(),
            old(self).buffer@.len() < MAX_TEXT_LEN as int ==> final(self).buffer@ == old(
                self,
            ).buffer@.insert(old(self).cursor as int, c) && final(self).cursor == old(self).cursor
                + 1,
            old(self).buffer@.len() >= MAX_TEXT_LEN as int ==> *final(self) == *old(self),
    {
        if self.buffer.len() < MAX_TEXT_LEN {
            self.buffer.insert(self.cursor, c);
            self.cursor = self.cursor + 1;
        }
    }

    /// Deletes the character before the cursor and retreats it; a
    /// no-op at the buffer start.
    pub fn backspace(&mut self)
        requires
            old(self).wf(),
        ensures
            final(self).wf(),
            old(self).cursor > 0 ==> final(self).buffer@ == old(self).buffer@.remove(
                old(self).cursor - 1,
            ) && final(self).cursor == old(self).cursor - 1,
            old(self).cursor == 0 ==> *final(self) == *old(self),
    {
        if self.cursor > 0 {
            self.cursor = self.cursor - 1;
            self.buffer.remove(self.cursor);
        }
    }

    /// Moves the cursor one position left; a no-op at the start.
    pub fn cursor_left(&mut self)
        requires
            old(self).wf(),
        ensures
            final(self).wf(),
            final(self).buffer@ == old(self).buffer@,
            final(self).cursor as int == crate::geom::max_spec(0, old(self).cursor as int - 1),
    {
        if self.cursor > 0 {
            self.cursor = self.cursor - 1;
        }
    }

    /// Moves the cursor one position right; a no-op at the end.
    pub fn cursor_right(&mut self)
        requires
            old(self).wf(),
        ensures
            final(self).wf(),
            final(self).buffer@ == old(self).buffer@,
            final(self).cursor as int == min_spec(
                old(self).buffer@.len() as int,
                old(self).cursor as int + 1,
            ),
    {
        if self.cursor < self.buffer.len() {
            self.cursor = self.cursor + 1;
        }
    }

    /// Moves the cursor one line up, keeping the column where the
    /// line above is long enough.
    pub fn cursor_up(&mut self)
        requires
            old(self).wf(),
        ensures
            final(self).wf(),
            final(self).buffer@ == old(self).buffer@,
            final(self).cursor as int == cursor_up_spec(old(self).buffer@, old(self).cursor as int),
    {
        proof {
            lemma_line_bounds(self.buffer@, self.cursor as int);
        }
        let b = find_line_begin(&self.buffer, self.cursor);
        if b == 0 {
            self.cursor = 0;
        } else {
            proof {
                lemma_line_bounds(self.buffer@, b as int - 1);
            }
            let pb = find_line_begin(&self.buffer, b - 1);
            let col = self.cursor - b;
            let prev_len = b - 1 - pb;
            let step = if col <= prev_len {
                col
            } else {
                prev_len
            };
            self.cursor = pb + step;
        }
    }

    /// Moves the cursor one line down, keeping the column where the
    /// line below is long enough.
    pub fn cursor_down(&mut self)
        requires
            old(self).wf(),
        ensures
            final(self).wf(),
            final(self).buffer@ == old(self).buffer@,
            final(self).cursor as int == cursor_down_spec(
                old(self).buffer@,
                old(self).cursor as int,
            ),
    {
        proof {
            lemma_line_bounds(self.buffer@, self.cursor as int);
        }
        let e = find_line_end(&self.buffer, self.cursor);
        if e == self.buffer.len() {
            self.cursor = self.buffer.len();
        } else {
            proof {
                lemma_line_bounds(self.buffer@, e as int + 1);
            }
            let b = find_line_begin(&self.buffer, self.cursor);
            let ne = find_line_end(&self.buffer, e + 1);
            let col = self.cursor - b;
            let next_len = ne - (e + 1);
            let step = if col <= next_len {
                col
            } else {
                next_len
            };
            self.cursor = e + 1 + step;
        }
    }

    /// Clears the session.
    pub fn clear(&mut self)
        ensures
            final(self).wf(),
            final(self).buffer@.len() == 0,
            final(self).cursor == 0,
    {
        self.buffer = Vec::new();
        self.cursor = 0;
    }
}

} // verus!
