//! The line editor: an in-memory text buffer measured in characters, a cursor
//! kept inside `[0, length]`, and a one-slot kill ring holding the text most
//! recently removed by a kill operation.

use vstd::prelude::*;

verus! {

/// Whitespace for word motions: the characters with the Unicode `White_Space`
/// property, the same set `char::is_whitespace` recognises.
pub open spec fn is_space(c: char) -> bool {
    c == ' ' || c == '\t' || c == '\n' || c == '\r' || c == '\u{000B}' || c == '\u{000C}'
        || c == '\u{0085}' || c == '\u{00A0}' || c == '\u{1680}' || (c >= '\u{2000}' && c
        <= '\u{200A}') || c == '\u{2028}' || c == '\u{2029}' || c == '\u{202F}' || c == '\u{205F}'
        || c == '\u{3000}'
}

/// Decides whether `c` separates words, exactly as `is_space` states.
pub fn is_space_char(c: char) -> (r: bool)
    ensures
        r == is_space(c),
{
    c == ' ' || c == '\t' || c == '\n' || c == '\r' || c == '\u{000B}' || c == '\u{000C}'
        || c == '\u{0085}' || c == '\u{00A0}' || c == '\u{1680}' || (c >= '\u{2000}' && c
        <= '\u{200A}') || c == '\u{2028}' || c == '\u{2029}' || c == '\u{202F}' || c == '\u{205F}'
        || c == '\u{3000}'
}

/// Where a leftward sweep from index `i` over whitespace stops.
pub open spec fn scan_ws_left(s: Seq<char>, i: int) -> int
    decreases i,
{
    if 0 < i <= s.len() && is_space(s[i - 1]) {
        scan_ws_left(s, i - 1)
    } else {
        i
    }
}

/// The start of the word whose characters end just before index `i`.
pub open spec fn scan_word_left(s: Seq<char>, i: int) -> int
    decreases i,
{
    if 0 < i <= s.len() && !is_space(s[i - 1]) {
        scan_word_left(s, i - 1)
    } else {
        i
    }
}

/// Where a leftward word motion from `i` lands: first skip whitespace, then
/// skip the word to its start.
pub open spec fn word_left_from(s: Seq<char>, i: int) -> int {
    scan_word_left(s, scan_ws_left(s, i))
}

/// The first index at or after `i` that is not whitespace, or the end.
pub open spec fn scan_ws_right(s: Seq<char>, i: int) -> int
    decreases s.len() - i,
{
    if 0 <= i < s.len() && is_space(s[i]) {
        scan_ws_right(s, i + 1)
    } else {
        i
    }
}

/// The index just past the word that starts at or after `i`.
pub open spec fn scan_word_right(s: Seq<char>, i: int) -> int
    decreases s.len() - i,
{
    if 0 <= i < s.len() && !is_space(s[i]) {
        scan_word_right(s, i + 1)
    } else {
        i
    }
}

/// Where a rightward word motion from `i` lands: skip whitespace at and after
/// `i`, then skip the following word, landing just past it.
pub open spec fn word_right_from(s: Seq<char>, i: int) -> int {
    scan_word_right(s, scan_ws_right(s, i))
}

/// `s` with the index range `[a, b)` removed.
pub open spec fn seq_without_range(s: Seq<char>, a: int, b: int) -> Seq<char> {
    s.take(a) + s.skip(b)
}

/// Where a cursor at `c` sits after the range `[a, b)` is removed: positions
/// before the range keep their place, positions inside collapse to its start,
/// and positions after shift left by the removed length.
pub open spec fn cursor_after_removal(c: int, a: int, b: int) -> int {
    if c <= a {
        c
    } else if c <= b {
        a
    } else {
        c - (b - a)
    }
}

pub struct EditBuffer {
    text: Vec<char>,
    cur: usize,
    killed: Vec<char>,
}

impl EditBuffer {
    /// The buffer contents, one entry per character.
    pub closed spec fn text(&self) -> Seq<char> {
        self.text@
    }

    /// The cursor position, in characters.
    pub closed spec fn cursor(&self) -> int {
        self.cur as int
    }

    /// The kill-ring slot.
    pub closed spec fn kill(&self) -> Seq<char> {
        self.killed@
    }

    /// The cursor never leaves `[0, length]`.
    pub open spec fn wf(&self) -> bool {
        0 <= self.cursor() <= self.text().len()
    }

    pub fn new() -> (b: Self)
        ensures
            b.wf(),
            b.text() == Seq::<char>::empty(),
            b.cursor() == 0,
            b.kill() == Seq::<char>::empty(),
    {
        EditBuffer { text: Vec::new(), cur: 0, killed: Vec::new() }
    }

    /// Replaces the contents with `text` and puts the cursor at the end; the
    /// kill slot is cleared.
    pub fn reset_with(&mut self, text: Vec<char>)
        ensures
            final(self).wf(),
            final(self).text() == text@,
            final(self).cursor() == text@.len(),
            final(self).kill() == Seq::<char>::empty(),
    {
        let n = text.len();
        self.text = text;
        self.cur = n;
        self.killed = Vec::new();
    }

    /// Replaces the contents with `text` and puts the cursor at the end; the
    /// kill slot is kept.
    pub fn set_text(&mut self, text: Vec<char>)
        ensures
            final(self).wf(),
            final(self).text() == text@,
            final(self).cursor() == text@.len(),
            final(self).kill() == old(self).kill(),
    {
        let n = text.len();
        self.text = text;
        self.cur = n;
    }

    /// Empties the buffer; the kill slot is kept.
    pub fn clear_text(&mut self)
        ensures
            final(self).wf(),
            final(self).text() == Seq::<char>::empty(),
            final(self).cursor() == 0,
            final(self).kill() == old(self).kill(),
    {
        self.text = Vec::new();
        self.cur = 0;
    }

    /// Empties the buffer and the kill slot.
    pub fn clear_all(&mut self)
        ensures
            final(self).wf(),
            final(self).text() == Seq::<char>::empty(),
            final(self).cursor() == 0,
            final(self).kill() == Seq::<char>::empty(),
    {
        self.text = Vec::new();
        self.cur = 0;
        self.killed = Vec::new();
    }

    pub fn buffer_len(&self) -> (n: usize)
        ensures
            n == self.text().len(),
    {
        self.text.len()
    }

    /// A copy of the buffer contents.
    pub fn text_chars(&self) -> (v: Vec<char>)
        ensures
            v@ == self.text(),
    {
        clone_chars(&self.text)
    }

    /// A copy of the kill slot.
    pub fn kill_chars(&self) -> (v: Vec<char>)
        ensures
            v@ == self.kill(),
    {
        clone_chars(&self.killed)
    }

    pub fn kill_len(&self) -> (n: usize)
        ensures
            n == self.kill().len(),
    {
        self.killed.len()
    }

    pub fn cursor_index(&self) -> (i: usize)
        ensures
            i == self.cursor(),
    {
        self.cur
    }

    pub fn cursor_to_start(&mut self)
        requires
            old(self).wf(),
        ensures
            final(self).wf(),
            final(self).text() == old(self).text(),
            final(self).cursor() == 0,
            final(self).kill() == old(self).kill(),
    {
        self.cur = 0;
    }

    pub fn cursor_to_end(&mut self)
        requires
            old(self).wf(),
        ensures
            final(self).wf(),
            final(self).text() == old(self).text(),
            final(self).cursor() == old(self).text().len(),
            final(self).kill() == old(self).kill(),
    {
        self.cur = self.text.len();
    }

    /// Single-character motion left; a no-op at the start.
    pub fn move_cursor_left(&mut self)
        requires
            old(self).wf(),
        ensures
            final(self).wf(),
            final(self).text() == old(self).text(),
            final(self).kill() == old(self).kill(),
            final(self).cursor() == if old(self).cursor() > 0 {
                old(self).cursor() - 1
            } else {
                0int
            },
    {
        if self.cur > 0 {
            self.cur = self.cur - 1;
        }
    }

    /// Single-character motion right; a no-op at the end.
    pub fn move_cursor_right(&mut self)
        requires
            old(self).wf(),
        ensures
            final(self).wf(),
            final(self).text() == old(self).text(),
            final(self).kill() == old(self).kill(),
            final(self).cursor() == if old(self).cursor() < old(self).text().len() {
                old(self).cursor() + 1
            } else {
                old(self).cursor()
            },
    {
        if self.cur < self.text.len() {
            self.cur = self.cur + 1;
        }
    }

    /// Where a leftward word motion from the cursor would land.
    pub fn word_left_index(&self) -> (r: usize)
        requires
            self.wf(),
        ensures
            r == word_left_from(self.text(), self.cursor()),
            0 <= r <= self.cursor(),
    {
        let ghost s = self.text();
        let mut idx: usize = self.cur;
        while idx > 0 && is_space_char(self.text[idx - 1])
            invariant
                0 <= idx <= self.cursor() <= s.len(),
                s == self.text(),
                scan_ws_left(s, idx as int) == scan_ws_left(s, self.cursor()),
            decreases idx,
        {
            idx = idx - 1;
        }
        assert(idx as int == scan_ws_left(s, self.cursor()));
        let ghost mid = idx as int;
        while idx > 0 && !is_space_char(self.text[idx - 1])
            invariant
                0 <= idx <= mid <= s.len(),
                s == self.text(),
                scan_word_left(s, idx as int) == scan_word_left(s, mid),
            decreases idx,
        {
            idx = idx - 1;
        }
        assert(idx as int == scan_word_left(s, mid));
        idx
    }

    /// Where a rightward word motion from the cursor would land.
    pub fn word_right_index(&self) -> (r: usize)
        requires
            self.wf(),
        ensures
            r == word_right_from(self.text(), self.cursor()),
            self.cursor() <= r <= self.text().len(),
    {
        let ghost s = self.text();
        let n = self.text.len();
        let mut idx: usize = self.cur;
        while idx < n && is_space_char(self.text[idx])
            invariant
                self.cursor() <= idx <= n == s.len(),
                s == self.text(),
                scan_ws_right(s, idx as int) == scan_ws_right(s, self.cursor()),
            decreases n - idx,
        {
            idx = idx + 1;
        }
        assert(idx as int == scan_ws_right(s, self.cursor()));
        let ghost mid = idx as int;
        while idx < n && !is_space_char(self.text[idx])
            invariant
                mid <= idx <= n == s.len(),
                s == self.text(),
                scan_word_right(s, idx as int) == scan_word_right(s, mid),
            decreases n - idx,
        {
            idx = idx + 1;
        }
        assert(idx as int == scan_word_right(s, mid));
        idx
    }

    /// Moves the cursor one word left.
    pub fn move_word_left(&mut self)
        requires
            old(self).wf(),
        ensures
            final(self).wf(),
            final(self).text() == old(self).text(),
            final(self).kill() == old(self).kill(),
            final(self).cursor() == word_left_from(old(self).text(), old(self).cursor()),
    {
        let idx = self.word_left_index();
        self.cur = idx;
    }

    /// Moves the cursor one word right.
    pub fn move_word_right(&mut self)
        requires
            old(self).wf(),
        ensures
            final(self).wf(),
            final(self).text() == old(self).text(),
            final(self).kill() == old(self).kill(),
            final(self).cursor() == word_right_from(old(self).text(), old(self).cursor()),
    {
        let idx = self.word_right_index();
        self.cur = idx;
    }

    /// Inserts `ch` at the cursor; the cursor advances past it. The kill slot
    /// is untouched.
    pub fn insert_char(&mut self, ch: char)
        requires
            old(self).wf(),
        ensures
            final(self).wf(),
            final(self).text() == old(self).text().insert(old(self).cursor(), ch),
            final(self).cursor() == old(self).cursor() + 1,
            final(self).kill() == old(self).kill(),
    {
        self.text.insert(self.cur, ch);
        let n = self.text.len();
        assert(self.cur < n);
        self.cur = self.cur + 1;
    }

    /// Removes the character just before the cursor; a no-op at the start.
    /// The kill slot is untouched.
    pub fn delete_prev_char(&mut self)
        requires
            old(self).wf(),
        ensures
            final(self).wf(),
            final(self).kill() == old(self).kill(),
            old(self).cursor() == 0 ==> *final(self) == *old(self),
            old(self).cursor() > 0 ==> final(self).text() == old(self).text().remove(
                old(self).cursor() - 1,
            ) && final(self).cursor() == old(self).cursor() - 1,
    {
        if self.cur == 0 {
            return ;
        }
        self.text.remove(self.cur - 1);
        self.cur = self.cur - 1;
    }

    /// Removes the character at the cursor; a no-op at the end. The kill slot
    /// is untouched.
    pub fn delete_char(&mut self)
        requires
            old(self).wf(),
        ensures
            final(self).wf(),
            final(self).kill() == old(self).kill(),
            old(self).cursor() == old(self).text().len() ==> *final(self) == *old(self),
            old(self).cursor() < old(self).text().len() ==> final(self).text() == old(self).text().remove(old(self).cursor()) && final(self).cursor() == old(self).cursor(),
    {
        if self.cur >= self.text.len() {
            return ;
        }
        self.text.remove(self.cur);
    }

    /// Removes the characters in `[start, end)`, both clamped to the length.
    /// A no-op when the clamped range is empty; otherwise the removed text
    /// overwrites the kill slot and the cursor keeps its logical place: it
    /// collapses onto the cut when it was inside it, and shifts left when it
    /// was past it.
    pub fn kill_range(&mut self, start: usize, end: usize)
        requires
            old(self).wf(),
        ensures
            final(self).wf(),
            ({
                let n = old(self).text().len();
                let a = if start <= n {
                    start as int
                } else {
                    n as int
                };
                let b = if end <= n {
                    end as int
                } else {
                    n as int
                };
                if a >= b {
                    *final(self) == *old(self)
                } else {
                    final(self).text() == seq_without_range(old(self).text(), a, b)
                        && final(self).kill() == old(self).text().subrange(a, b)
                        && final(self).cursor() == cursor_after_removal(old(self).cursor(), a, b)
                }
            }),
    {
        let n = self.text.len();
        let a = if start <= n {
            start
        } else {
            n
        };
        let b = if end <= n {
            end
        } else {
            n
        };
        if a >= b {
            return ;
        }
        let removed = remove_vec_range(&mut self.text, a, b);
        self.killed = removed;
        if self.cur > a {
            if self.cur <= b {
                self.cur = a;
            } else {
                self.cur = self.cur - (b - a);
            }
        }
    }

    /// Kills from the start of the buffer to the cursor; the cursor moves to
    /// the start.
    pub fn kill_to_start(&mut self)
        requires
            old(self).wf(),
        ensures
            final(self).wf(),
            final(self).cursor() == 0,
            final(self).text() == old(self).text().skip(old(self).cursor()),
            old(self).cursor() == 0 ==> *final(self) == *old(self),
            old(self).cursor() > 0 ==> final(self).kill() == old(self).text().take(
                old(self).cursor(),
            ),
            old(self).cursor() == 0 ==> final(self).kill() == old(self).kill(),
    {
        let ghost pre = *self;
        self.kill_range(0, self.cur);
        proof {
            if pre.cursor() > 0 {
                assert(seq_without_range(pre.text(), 0, pre.cursor()) =~= pre.text().skip(
                    pre.cursor(),
                ));
                assert(pre.text().subrange(0, pre.cursor()) =~= pre.text().take(pre.cursor()));
            } else {
                assert(pre.text().skip(0) =~= pre.text());
            }
        }
    }

    /// Kills from the cursor to the end of the buffer; the cursor stays.
    pub fn kill_to_end(&mut self)
        requires
            old(self).wf(),
        ensures
            final(self).wf(),
            final(self).cursor() == old(self).cursor(),
            final(self).text() == old(self).text().take(old(self).cursor()),
            old(self).cursor() == old(self).text().len() ==> *final(self) == *old(self),
            old(self).cursor() < old(self).text().len() ==> final(self).kill() == old(self).text().skip(old(self).cursor()),
            old(self).cursor() == old(self).text().len() ==> final(self).kill() == old(self).kill(),
    {
        let ghost pre = *self;
        let n = self.text.len();
        self.kill_range(self.cur, n);
        proof {
            if pre.cursor() < pre.text().len() {
                assert(seq_without_range(pre.text(), pre.cursor(), pre.text().len() as int)
                    =~= pre.text().take(pre.cursor()));
                assert(pre.text().subrange(pre.cursor(), pre.text().len() as int) =~= pre.text().skip(
                    pre.cursor(),
                ));
            } else {
                assert(pre.text().take(pre.cursor()) =~= pre.text());
            }
        }
    }

    /// Kills from the start of the word left of the cursor up to the cursor;
    /// the cursor moves to that start.
    pub fn kill_prev_word(&mut self)
        requires
            old(self).wf(),
        ensures
            final(self).wf(),
            ({
                let w = word_left_from(old(self).text(), old(self).cursor());
                final(self).cursor() == w && final(self).text() == seq_without_range(
                    old(self).text(),
                    w,
                    old(self).cursor(),
                ) && if w < old(self).cursor() {
                    final(self).kill() == old(self).text().subrange(w, old(self).cursor())
                } else {
                    *final(self) == *old(self)
                }
            }),
    {
        let w = self.word_left_index();
        let c = self.cur;
        self.kill_range(w, c);
        proof {
            let pre = *old(self);
            let wi = word_left_from(pre.text(), pre.cursor());
            if wi >= pre.cursor() {
                assert(seq_without_range(pre.text(), wi, pre.cursor()) =~= pre.text());
            }
        }
    }

    /// Kills from the cursor to the end of the word right of it; the cursor
    /// stays.
    pub fn kill_word_forward(&mut self)
        requires
            old(self).wf(),
        ensures
            final(self).wf(),
            ({
                let w = word_right_from(old(self).text(), old(self).cursor());
                final(self).cursor() == old(self).cursor() && final(self).text()
                    == seq_without_range(old(self).text(), old(self).cursor(), w) && if w > old(self).cursor() {
                    final(self).kill() == old(self).text().subrange(old(self).cursor(), w)
                } else {
                    *final(self) == *old(self)
                }
            }),
    {
        let w = self.word_right_index();
        let c = self.cur;
        self.kill_range(c, w);
        proof {
            let pre = *old(self);
            let wi = word_right_from(pre.text(), pre.cursor());
            if wi <= pre.cursor() {
                assert(seq_without_range(pre.text(), pre.cursor(), wi) =~= pre.text());
            }
        }
    }

    /// Inserts the kill slot's contents at the cursor; the cursor advances
    /// past the inserted text. A no-op when the slot is empty; the slot
    /// itself is never changed by a yank.
    pub fn yank(&mut self)
        requires
            old(self).wf(),
            old(self).text().len() + old(self).kill().len() <= usize::MAX,
        ensures
            final(self).wf(),
            final(self).kill() == old(self).kill(),
            final(self).text() == old(self).text().take(old(self).cursor()) + old(self).kill()
                + old(self).text().skip(old(self).cursor()),
            final(self).cursor() == old(self).cursor() + old(self).kill().len(),
            yank_step(*old(self), *final(self)),
    {
        let ghost pre = *self;
        if self.killed.len() == 0 {
            proof {
                assert(pre.text().take(pre.cursor()) + pre.kill() + pre.text().skip(pre.cursor())
                    =~= pre.text());
            }
            return ;
        }
        let ins = clone_chars(&self.killed);
        insert_chars_at(&mut self.text, self.cur, &ins);
        self.cur = self.cur + self.killed.len();
    }
}

/// The relation a yank establishes between the buffer before and after it:
/// the kill slot's contents appear at the cursor, the cursor advances past
/// them, and the slot itself is unchanged.
pub open spec fn yank_step(pre: EditBuffer, post: EditBuffer) -> bool {
    &&& post.kill() == pre.kill()
    &&& post.text() == pre.text().take(pre.cursor()) + pre.kill() + pre.text().skip(pre.cursor())
    &&& post.cursor() == pre.cursor() + pre.kill().len()
}

/// The relation `insert_char` establishes.
pub open spec fn buf_insert(a: EditBuffer, b: EditBuffer, ch: char) -> bool {
    &&& b.text() == a.text().insert(a.cursor(), ch)
    &&& b.cursor() == a.cursor() + 1
    &&& b.kill() == a.kill()
}

/// The relation `delete_prev_char` establishes.
pub open spec fn buf_delete_prev(a: EditBuffer, b: EditBuffer) -> bool {
    if a.cursor() == 0 {
        b == a
    } else {
        b.text() == a.text().remove(a.cursor() - 1) && b.cursor() == a.cursor() - 1 && b.kill()
            == a.kill()
    }
}

/// The relation `delete_char` establishes.
pub open spec fn buf_delete_at(a: EditBuffer, b: EditBuffer) -> bool {
    if a.cursor() == a.text().len() {
        b == a
    } else {
        b.text() == a.text().remove(a.cursor()) && b.cursor() == a.cursor() && b.kill() == a.kill()
    }
}

/// The relation `kill_to_start` establishes.
pub open spec fn buf_kill_to_start(a: EditBuffer, b: EditBuffer) -> bool {
    &&& b.cursor() == 0
    &&& b.text() == a.text().skip(a.cursor())
    &&& b.kill() == if a.cursor() > 0 {
        a.text().take(a.cursor())
    } else {
        a.kill()
    }
}

/// The relation `kill_to_end` establishes.
pub open spec fn buf_kill_to_end(a: EditBuffer, b: EditBuffer) -> bool {
    &&& b.cursor() == a.cursor()
    &&& b.text() == a.text().take(a.cursor())
    &&& b.kill() == if a.cursor() < a.text().len() {
        a.text().skip(a.cursor())
    } else {
        a.kill()
    }
}

/// The relation `kill_prev_word` establishes.
pub open spec fn buf_kill_prev_word(a: EditBuffer, b: EditBuffer) -> bool {
    let w = word_left_from(a.text(), a.cursor());
    &&& b.cursor() == w
    &&& b.text() == seq_without_range(a.text(), w, a.cursor())
    &&& b.kill() == if w < a.cursor() {
        a.text().subrange(w, a.cursor())
    } else {
        a.kill()
    }
}

/// The relation `kill_word_forward` establishes.
pub open spec fn buf_kill_word_forward(a: EditBuffer, b: EditBuffer) -> bool {
    let w = word_right_from(a.text(), a.cursor());
    &&& b.cursor() == a.cursor()
    &&& b.text() == seq_without_range(a.text(), a.cursor(), w)
    &&& b.kill() == if w > a.cursor() {
        a.text().subrange(a.cursor(), w)
    } else {
        a.kill()
    }
}

/// The relation a guarded yank establishes: the yank itself when the result
/// fits the address space, and no change otherwise.
pub open spec fn buf_yank_guarded(a: EditBuffer, b: EditBuffer) -> bool {
    if a.text().len() + a.kill().len() <= usize::MAX {
        yank_step(a, b)
    } else {
        b == a
    }
}

/// The relation a single-character left motion establishes.
pub open spec fn buf_move_left(a: EditBuffer, b: EditBuffer) -> bool {
    &&& b.text() == a.text()
    &&& b.kill() == a.kill()
    &&& b.cursor() == if a.cursor() > 0 {
        a.cursor() - 1
    } else {
        0int
    }
}

/// The relation a single-character right motion establishes.
pub open spec fn buf_move_right(a: EditBuffer, b: EditBuffer) -> bool {
    &&& b.text() == a.text()
    &&& b.kill() == a.kill()
    &&& b.cursor() == if a.cursor() < a.text().len() {
        a.cursor() + 1
    } else {
        a.cursor()
    }
}

/// The relation a leftward word motion establishes.
pub open spec fn buf_word_left(a: EditBuffer, b: EditBuffer) -> bool {
    &&& b.text() == a.text()
    &&& b.kill() == a.kill()
    &&& b.cursor() == word_left_from(a.text(), a.cursor())
}

/// The relation a rightward word motion establishes.
pub open spec fn buf_word_right(a: EditBuffer, b: EditBuffer) -> bool {
    &&& b.text() == a.text()
    &&& b.kill() == a.kill()
    &&& b.cursor() == word_right_from(a.text(), a.cursor())
}

/// The relation a motion to the buffer start establishes.
pub open spec fn buf_home(a: EditBuffer, b: EditBuffer) -> bool {
    b.text() == a.text() && b.kill() == a.kill() && b.cursor() == 0
}

/// The relation a motion to the buffer end establishes.
pub open spec fn buf_end(a: EditBuffer, b: EditBuffer) -> bool {
    b.text() == a.text() && b.kill() == a.kill() && b.cursor() == a.text().len()
}

/// Law: a yank never touches the kill slot, so after a yank with no further
/// kill, every later yank inserts the same text again — and that text is the
/// slot's contents, sitting in the buffer right before each new cursor.
pub proof fn lemma_repeated_yank_inserts_same_text(b0: EditBuffer, b1: EditBuffer, b2: EditBuffer)
    requires
        b0.wf(),
        yank_step(b0, b1),
        yank_step(b1, b2),
    ensures
        b2.kill() == b0.kill(),
        b1.text().subrange(b0.cursor(), b1.cursor()) == b0.kill(),
        b2.text().subrange(b1.cursor(), b2.cursor()) == b0.kill(),
{
    assert(b1.text().subrange(b0.cursor(), b1.cursor()) =~= b0.kill());
    assert(b1.wf());
    assert(b2.text().subrange(b1.cursor(), b2.cursor()) =~= b1.kill());
}

/// Law: a word motion never leaves the buffer — leftward it lands in
/// `[0, start]`, so at the start it cannot move further.
pub proof fn lemma_word_left_in_range(s: Seq<char>, i: int)
    requires
        0 <= i <= s.len(),
    ensures
        0 <= word_left_from(s, i) <= i,
        i == 0 ==> word_left_from(s, i) == 0,
{
    lemma_scan_ws_left_props(s, i);
    lemma_scan_word_left_props(s, scan_ws_left(s, i));
}

/// Law: a word motion never leaves the buffer — rightward it lands in
/// `[start, length]`, so at the end it cannot move further.
pub proof fn lemma_word_right_in_range(s: Seq<char>, i: int)
    requires
        0 <= i <= s.len(),
    ensures
        i <= word_right_from(s, i) <= s.len(),
        i == s.len() ==> word_right_from(s, i) == s.len(),
{
    lemma_scan_ws_right_props(s, i);
    lemma_scan_word_right_props(s, scan_ws_right(s, i));
}

/// Law: from the right edge of a word — a cursor with a word character on its
/// left and whitespace or the buffer end on its right — moving one word left
/// and then one word right returns exactly to the starting position. (From a
/// position strictly inside a word the round trip overshoots to the word's
/// end instead: on the buffer `abc` with the cursor at 1 it lands at 3.)
pub proof fn lemma_word_round_trip(s: Seq<char>, i: int)
    requires
        0 < i <= s.len(),
        !is_space(s[i - 1]),
        i == s.len() || is_space(s[i]),
    ensures
        word_right_from(s, word_left_from(s, i)) == i,
{
    assert(scan_ws_left(s, i) == i);
    let w = scan_word_left(s, i);
    lemma_scan_word_left_props(s, i);
    assert(scan_word_left(s, i) == scan_word_left(s, i - 1));
    lemma_scan_word_left_props(s, i - 1);
    assert(w < i);
    assert(!is_space(s[w]));
    assert(scan_ws_right(s, w) == w);
    lemma_scan_word_right_reaches(s, w, i);
}

/// Everything a leftward whitespace sweep guarantees: it stays in `[0, i]`,
/// sweeps only whitespace, and stops under a non-whitespace character or at
/// the start.
pub proof fn lemma_scan_ws_left_props(s: Seq<char>, i: int)
    requires
        0 <= i <= s.len(),
    ensures
        0 <= scan_ws_left(s, i) <= i,
        forall|j: int| scan_ws_left(s, i) <= j < i ==> is_space(s[j]),
        scan_ws_left(s, i) == 0 || !is_space(s[scan_ws_left(s, i) - 1]),
    decreases i,
{
    if 0 < i && is_space(s[i - 1]) {
        lemma_scan_ws_left_props(s, i - 1);
    }
}

/// Everything a leftward word sweep guarantees: it stays in `[0, i]`, sweeps
/// only word characters, and stops under whitespace or at the start.
pub proof fn lemma_scan_word_left_props(s: Seq<char>, i: int)
    requires
        0 <= i <= s.len(),
    ensures
        0 <= scan_word_left(s, i) <= i,
        forall|j: int| scan_word_left(s, i) <= j < i ==> !is_space(s[j]),
        scan_word_left(s, i) == 0 || is_space(s[scan_word_left(s, i) - 1]),
    decreases i,
{
    if 0 < i && !is_space(s[i - 1]) {
        lemma_scan_word_left_props(s, i - 1);
    }
}

/// Everything a rightward whitespace sweep guarantees, mirroring the leftward
/// one.
pub proof fn lemma_scan_ws_right_props(s: Seq<char>, i: int)
    requires
        0 <= i <= s.len(),
    ensures
        i <= scan_ws_right(s, i) <= s.len(),
        forall|j: int| i <= j < scan_ws_right(s, i) ==> is_space(s[j]),
        scan_ws_right(s, i) == s.len() || !is_space(s[scan_ws_right(s, i)]),
    decreases s.len() - i,
{
    if i < s.len() && is_space(s[i]) {
        lemma_scan_ws_right_props(s, i + 1);
    }
}

/// Everything a rightward word sweep guarantees, mirroring the leftward one.
pub proof fn lemma_scan_word_right_props(s: Seq<char>, i: int)
    requires
        0 <= i <= s.len(),
    ensures
        i <= scan_word_right(s, i) <= s.len(),
        forall|j: int| i <= j < scan_word_right(s, i) ==> !is_space(s[j]),
        scan_word_right(s, i) == s.len() || is_space(s[scan_word_right(s, i)]),
    decreases s.len() - i,
{
    if i < s.len() && !is_space(s[i]) {
        lemma_scan_word_right_props(s, i + 1);
    }
}

/// A rightward word sweep over a run of word characters ending at whitespace
/// or at the buffer end stops exactly where the run ends.
proof fn lemma_scan_word_right_reaches(s: Seq<char>, w: int, i: int)
    requires
        0 <= w <= i <= s.len(),
        forall|j: int| w <= j < i ==> !is_space(s[j]),
        i == s.len() || is_space(s[i]),
    ensures
        scan_word_right(s, w) == i,
    decreases i - w,
{
    if w < i {
        lemma_scan_word_right_reaches(s, w + 1, i);
    }
}

/// A copy of a character vector.
pub fn clone_chars(v: &Vec<char>) -> (r: Vec<char>)
    ensures
        r@ == v@,
{
    let mut r: Vec<char> = Vec::new();
    let mut i: usize = 0;
    while i < v.len()
        invariant
            0 <= i <= v.len(),
            r@ == v@.take(i as int),
        decreases v.len() - i,
    {
        r.push(v[i]);
        proof {
            assert(r@ =~= v@.take(i as int + 1));
        }
        i = i + 1;
    }
    proof {
        assert(v@.take(v@.len() as int) =~= v@);
    }
    r
}

/// Splices `ins` into `v` at index `at`.
pub fn insert_chars_at(v: &mut Vec<char>, at: usize, ins: &Vec<char>)
    requires
        at <= old(v).len(),
        old(v).len() + ins.len() <= usize::MAX,
    ensures
        final(v)@ == old(v)@.take(at as int) + ins@ + old(v)@.skip(at as int),
{
    let mut i: usize = 0;
    while i < ins.len()
        invariant
            0 <= i <= ins.len(),
            at <= old(v).len(),
            old(v).len() + ins.len() <= usize::MAX,
            v@.len() == old(v)@.len() + i,
            v@ == old(v)@.take(at as int) + ins@.take(i as int) + old(v)@.skip(at as int),
        decreases ins.len() - i,
    {
        proof {
            assert(at + i <= v@.len());
        }
        v.insert(at + i, ins[i]);
        proof {
            assert(v@ =~= old(v)@.take(at as int) + ins@.take(i as int + 1) + old(v)@.skip(
                at as int,
            ));
        }
        i = i + 1;
    }
    proof {
        assert(old(v)@.take(at as int) + ins@.take(ins@.len() as int) + old(v)@.skip(at as int)
            =~= old(v)@.take(at as int) + ins@ + old(v)@.skip(at as int));
    }
}

/// Removes `[a, b)` from `v` and returns the removed characters.
pub fn remove_vec_range(v: &mut Vec<char>, a: usize, b: usize) -> (r: Vec<char>)
    requires
        a <= b <= old(v).len(),
    ensures
        final(v)@ == seq_without_range(old(v)@, a as int, b as int),
        r@ == old(v)@.subrange(a as int, b as int),
{
    let mut r: Vec<char> = Vec::new();
    let mut i: usize = 0;
    while i < b - a
        invariant
            a <= b <= old(v).len(),
            0 <= i <= b - a,
            v@.len() == old(v)@.len() - i,
            r@ == old(v)@.subrange(a as int, a + i),
            v@ == old(v)@.take(a as int) + old(v)@.skip(a + i),
        decreases b - a - i,
    {
        proof {
            assert(v@[a as int] == old(v)@[a + i]);
        }
        let c = v.remove(a);
        r.push(c);
        proof {
            assert(r@ =~= old(v)@.subrange(a as int, a + i + 1));
            assert(v@ =~= old(v)@.take(a as int) + old(v)@.skip(a + i + 1));
        }
        i = i + 1;
    }
    proof {
        assert(v@ =~= seq_without_range(old(v)@, a as int, b as int));
    }
    r
}

} // verus!
