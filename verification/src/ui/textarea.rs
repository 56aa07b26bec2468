//! The multi-line SQL editor buffer: a sequence of lines, a two-dimensional
//! cursor with saturating coordinates, and an embedded completion dropdown.
//! Lines and line count are capped at the terminal coordinate range
//! (`u16::MAX`); an edit that would cross the cap leaves the buffer as it is.

use vstd::prelude::*;
use crate::config::KeyConfig;
use crate::err::UiError;
use crate::event::Key;
use crate::saturating_types::SaturatingU16;
use crate::sql_utils;
use crate::strutil;

verus! {

use crate::app::GlobalMessageQueue;
use crate::components::completion::CompletionComponent;
use crate::components::completion::completion_inv;
use crate::components::{CommandInfo, Component, EventState};
use crate::sql_utils::{last_word_part_of, word_start};

/// A two-dimensional cursor; both coordinates saturate instead of wrapping.
#[derive(Debug, Clone, Copy)]
pub struct CursorPos {
    pub row: SaturatingU16,
    pub col: SaturatingU16,
}

pub struct TextArea {
    pub buffer: Vec<Vec<char>>,
    pub completion: CompletionComponent,
    pub cursor_position: CursorPos,
}

/// The mathematical state of the editor: its lines and the cursor.
pub ghost struct TextAreaM {
    pub lines: Seq<Seq<char>>,
    pub row: int,
    pub col: int,
}

pub open spec fn ta_model(t: &TextArea) -> TextAreaM {
    TextAreaM {
        lines: t.buffer@.map_values(|l: Vec<char>| l@),
        row: t.cursor_position.row.0 as int,
        col: t.cursor_position.col.0 as int,
    }
}

/// The line under the cursor; empty while the buffer has no lines.
pub open spec fn cur_line(m: TextAreaM) -> Seq<char> {
    if m.lines.len() == 0 {
        Seq::empty()
    } else {
        m.lines[m.row]
    }
}

/// The cursor points at a line and a column inside it, and all sizes stay
/// inside the terminal coordinate range.
pub open spec fn textarea_inv(t: &TextArea) -> bool {
    let m = ta_model(t);
    &&& completion_inv(&t.completion)
    &&& m.lines.len() <= u16::MAX
    &&& (forall|i: int| 0 <= i < m.lines.len() ==> (#[trigger] m.lines[i]).len() <= u16::MAX)
    &&& if m.lines.len() == 0 {
        m.row == 0 && m.col == 0
    } else {
        m.row < m.lines.len() && m.col <= m.lines[m.row].len()
    }
}

/// Inserting one character at the cursor.  The first character of an empty
/// buffer creates its first line; a full line is left unchanged.
pub open spec fn ta_insert_char(m: TextAreaM, c: char) -> TextAreaM {
    if m.lines.len() == 0 {
        TextAreaM { lines: seq![seq![c]], row: 0, col: 1 }
    } else if m.lines[m.row].len() < u16::MAX {
        TextAreaM {
            lines: m.lines.update(m.row, m.lines[m.row].insert(m.col, c)),
            row: m.row,
            col: m.col + 1,
        }
    } else {
        m
    }
}

/// Splitting the current line at the cursor; the suffix moves to a new
/// following line and the cursor lands at its start.
pub open spec fn ta_newline(m: TextAreaM) -> TextAreaM {
    if m.lines.len() == 0 {
        TextAreaM { lines: seq![Seq::empty(), Seq::empty()], row: 1, col: 0 }
    } else if m.lines.len() < u16::MAX {
        let cur = m.lines[m.row];
        let head = cur.subrange(0, m.col);
        let tail = cur.subrange(m.col, cur.len() as int);
        TextAreaM {
            lines: m.lines.update(m.row, head).insert(m.row + 1, tail),
            row: m.row + 1,
            col: 0,
        }
    } else {
        m
    }
}

/// Deleting before the cursor: a character, or the line break when the
/// cursor is at column zero (the current line merges into the previous).
pub open spec fn ta_remove_prev(m: TextAreaM) -> Option<TextAreaM> {
    if m.lines.len() == 0 || (m.row == 0 && m.col == 0) {
        None
    } else if m.col > 0 {
        Some(
            TextAreaM {
                lines: m.lines.update(m.row, m.lines[m.row].remove(m.col - 1)),
                row: m.row,
                col: m.col - 1,
            },
        )
    } else {
        let prev = m.lines[m.row - 1];
        let cur = m.lines[m.row];
        if prev.len() + cur.len() <= u16::MAX {
            Some(
                TextAreaM {
                    lines: m.lines.remove(m.row).update(m.row - 1, prev + cur),
                    row: m.row - 1,
                    col: prev.len() as int,
                },
            )
        } else {
            None
        }
    }
}

/// Deleting under the cursor: a character under the cursor is removed, and
/// at end-of-line the next line merges in.  At the end of the document
/// nothing changes.
pub open spec fn ta_remove_next(m: TextAreaM) -> Option<TextAreaM> {
    if m.lines.len() == 0 {
        None
    } else if m.col < m.lines[m.row].len() {
        Some(
            TextAreaM {
                lines: m.lines.update(m.row, m.lines[m.row].remove(m.col)),
                row: m.row,
                col: m.col,
            },
        )
    } else if m.row + 1 < m.lines.len() {
        let cur = m.lines[m.row];
        let nxt = m.lines[m.row + 1];
        if cur.len() + nxt.len() <= u16::MAX {
            Some(
                TextAreaM {
                    lines: m.lines.remove(m.row + 1).update(m.row, cur + nxt),
                    row: m.row,
                    col: m.col,
                },
            )
        } else {
            None
        }
    } else {
        None
    }
}

/// Committing `text` into the current line: the word part before the cursor
/// is replaced, the rest of the line is kept, and the cursor lands after the
/// insertion.
pub open spec fn ta_replaced(m: TextAreaM, text: Seq<char>) -> TextAreaM {
    if m.lines.len() == 0 {
        m
    } else {
        let cur = m.lines[m.row];
        let prefix = cur.subrange(0, m.col);
        let ws = word_start(prefix);
        let newline = cur.subrange(0, ws) + text + cur.subrange(m.col, cur.len() as int);
        if newline.len() <= u16::MAX {
            TextAreaM { lines: m.lines.update(m.row, newline), row: m.row, col: ws + text.len() }
        } else {
            m
        }
    }
}

/// What a plain editing or movement key does; `None` when the key changes
/// nothing and bubbles up.  `Enter` and `Tab` are handled separately because
/// a visible dropdown reinterprets them.
pub open spec fn ta_key(m: TextAreaM, key: Key) -> Option<TextAreaM> {
    match key {
        Key::Char(c) => Some(ta_insert_char(m, c)),
        Key::Delete => ta_remove_next(m),
        Key::Backspace => ta_remove_prev(m),
        Key::Home => Some(TextAreaM { col: 0, ..m }),
        Key::CtrlHome => Some(TextAreaM { row: 0, col: 0, ..m }),
        Key::CtrlEnd => Some(
            if m.lines.len() == 0 {
                TextAreaM { row: 0, col: 0, ..m }
            } else {
                TextAreaM {
                    row: m.lines.len() - 1,
                    col: m.lines.last().len() as int,
                    ..m
                }
            },
        ),
        Key::End => if m.col < cur_line(m).len() {
            Some(TextAreaM { col: cur_line(m).len() as int, ..m })
        } else {
            None
        },
        Key::Left => if m.col == 0 && m.row > 0 {
            Some(TextAreaM { row: m.row - 1, col: m.lines[m.row - 1].len() as int, ..m })
        } else if m.col > 0 {
            Some(TextAreaM { col: m.col - 1, ..m })
        } else {
            None
        },
        Key::Right => if m.lines.len() > 0 && m.col == cur_line(m).len() && m.row + 1
            < m.lines.len() {
            Some(TextAreaM { row: m.row + 1, col: 0, ..m })
        } else if m.col < cur_line(m).len() {
            Some(TextAreaM { col: m.col + 1, ..m })
        } else {
            None
        },
        Key::Up => if m.row > 0 {
            Some(
                TextAreaM {
                    row: m.row - 1,
                    col: if m.col <= m.lines[m.row - 1].len() {
                        m.col
                    } else {
                        m.lines[m.row - 1].len() as int
                    },
                    ..m
                },
            )
        } else {
            None
        },
        Key::Down => if m.row + 1 < m.lines.len() {
            Some(
                TextAreaM {
                    row: m.row + 1,
                    col: if m.col <= m.lines[m.row + 1].len() {
                        m.col
                    } else {
                        m.lines[m.row + 1].len() as int
                    },
                    ..m
                },
            )
        } else {
            None
        },
        _ => None,
    }
}

/// The lines joined with newlines, the text the editor submits on `F5`.
pub open spec fn join_lines(ls: Seq<Seq<char>>) -> Seq<char>
    decreases ls.len(),
{
    if ls.len() == 0 {
        Seq::empty()
    } else if ls.len() == 1 {
        ls[0]
    } else {
        join_lines(ls.drop_last()) + seq!['\n'] + ls.last()
    }
}

impl TextArea {
    pub fn new(key_config: KeyConfig) -> (r: TextArea)
        ensures
            textarea_inv(&r),
            ta_model(&r).lines.len() == 0,
            ta_model(&r).row == 0,
            ta_model(&r).col == 0,
            r.completion.word@.len() == 0,
    {
        TextArea {
            buffer: Vec::new(),
            completion: CompletionComponent::new(key_config),
            cursor_position: CursorPos { row: SaturatingU16(0), col: SaturatingU16(0) },
        }
    }

    /// The whole buffer as one string, lines joined with newlines.
    pub fn get_text(&self) -> (r: String)
        requires
            textarea_inv(self),
        ensures
            r@ == join_lines(ta_model(self).lines),
    {
        let ghost ls = ta_model(self).lines;
        let mut chars: Vec<char> = Vec::new();
        let mut i: usize = 0;
        while i < self.buffer.len()
            invariant
                ls == ta_model(self).lines,
                ls.len() == self.buffer@.len(),
                i <= self.buffer@.len(),
                chars@ == join_lines(ls.subrange(0, i as int)),
            decreases self.buffer@.len() - i,
        {
            let ghost pre = chars@;
            if i > 0 {
                chars.push('\n');
            }
            let line = &self.buffer[i];
            let mut j: usize = 0;
            while j < line.len()
                invariant
                    i < self.buffer@.len(),
                    ls.len() == self.buffer@.len(),
                    ls == ta_model(self).lines,
                    line == self.buffer@[i as int],
                    j <= line@.len(),
                    chars@ == pre + (if i > 0 {
                        seq!['\n']
                    } else {
                        Seq::<char>::empty()
                    }) + line@.subrange(0, j as int),
                decreases line@.len() - j,
            {
                chars.push(line[j]);
                j = j + 1;
                assert(chars@ =~= pre + (if i > 0 {
                    seq!['\n']
                } else {
                    Seq::<char>::empty()
                }) + line@.subrange(0, j as int));
            }
            i = i + 1;
            proof {
                assert(line@.subrange(0, line@.len() as int) =~= line@);
                assert(ls.subrange(0, i as int).drop_last() =~= ls.subrange(0, i - 1));
                assert(ls.subrange(0, i as int).last() == ls[i - 1]);
                assert(ls[i - 1] == line@);
                if i == 1 {
                    assert(chars@ =~= join_lines(ls.subrange(0, 1)));
                } else {
                    assert(chars@ =~= join_lines(ls.subrange(0, i as int)));
                }
            }
        }
        proof {
            assert(ls.subrange(0, ls.len() as int) =~= ls);
        }
        strutil::string_from_chars(&chars)
    }

    /// The draw-time scroll offsets for a viewport of the given size: the
    /// buffer scrolls just far enough that the cursor stays visible.
    pub fn scroll_offsets(&self, viewport_height: u16, viewport_width: u16) -> (r: (u16, u16))
        ensures
            r.0 == if self.cursor_position.row.0 >= viewport_height {
                if self.cursor_position.row.0 - viewport_height + 1 <= u16::MAX {
                    self.cursor_position.row.0 - viewport_height + 1
                } else {
                    u16::MAX as int
                }
            } else {
                0
            },
            r.1 == if self.cursor_position.col.0 > viewport_width {
                self.cursor_position.col.0 - viewport_width
            } else {
                0
            },
    {
        let row = self.cursor_position.row.value();
        let col = self.cursor_position.col.value();
        let vertical: u16 = if row >= viewport_height {
            let d = row - viewport_height;
            if d == u16::MAX {
                d
            } else {
                d + 1
            }
        } else {
            0
        };
        let horizontal: u16 = if col > viewport_width {
            col - viewport_width
        } else {
            0
        };
        (vertical, horizontal)
    }

    /// Inserts a character at the cursor, as `ta_insert_char` describes.
    pub fn insert_char(&mut self, c: char)
        requires
            textarea_inv(old(self)),
        ensures
            textarea_inv(final(self)),
            ta_model(final(self)) == ta_insert_char(ta_model(old(self)), c),
            final(self).completion == old(self).completion,
    {
        if self.buffer.len() == 0 {
            let mut l: Vec<char> = Vec::new();
            l.push(c);
            self.buffer.push(l);
            self.cursor_position = CursorPos { row: SaturatingU16(0), col: SaturatingU16(1) };
            proof {
                assert(ta_model(final(self)).lines =~= seq![seq![c]]);
            }
            return;
        }
        let row = self.cursor_position.row.value() as usize;
        let col = self.cursor_position.col.value() as usize;
        if self.buffer[row].len() >= u16::MAX as usize {
            return;
        }
        let mut line = clone_chars(&self.buffer[row]);
        line.insert(col, c);
        self.buffer[row] = line;
        self.cursor_position.col.add_assign(1);
        proof {
            assert(ta_model(final(self)).lines =~= ta_insert_char(
                ta_model(old(self)),
                c,
            ).lines);
        }
    }

    /// Splits the current line at the cursor, as `ta_newline` describes.
    pub fn insert_new_line(&mut self)
        requires
            textarea_inv(old(self)),
        ensures
            textarea_inv(final(self)),
            ta_model(final(self)) == ta_newline(ta_model(old(self))),
            final(self).completion == old(self).completion,
    {
        if self.buffer.len() == 0 {
            self.buffer.push(Vec::new());
            self.buffer.push(Vec::new());
            self.cursor_position = CursorPos { row: SaturatingU16(1), col: SaturatingU16(0) };
            proof {
                assert(ta_model(final(self)).lines =~= seq![
                    Seq::<char>::empty(),
                    Seq::<char>::empty(),
                ]);
            }
            return;
        }
        if self.buffer.len() >= u16::MAX as usize {
            return;
        }
        let row = self.cursor_position.row.value() as usize;
        let col = self.cursor_position.col.value() as usize;
        let cur = clone_chars(&self.buffer[row]);
        let mut head = clone_chars(&self.buffer[row]);
        head.truncate(col);
        let mut tail: Vec<char> = Vec::new();
        let mut j: usize = col;
        while j < cur.len()
            invariant
                col <= j <= cur@.len(),
                tail@ == cur@.subrange(col as int, j as int),
            decreases cur@.len() - j,
        {
            tail.push(cur[j]);
            j = j + 1;
            assert(tail@ =~= cur@.subrange(col as int, j as int));
        }
        self.buffer[row] = head;
        self.buffer.insert(row + 1, tail);
        self.cursor_position.row.add_assign(1);
        self.cursor_position.col = SaturatingU16(0);
        proof {
            assert(ta_model(final(self)).lines =~= ta_newline(ta_model(old(self))).lines);
        }
    }

    /// Deletes before the cursor, as `ta_remove_prev` describes; reports
    /// whether anything changed.
    pub fn remove_prev_char(&mut self) -> (r: bool)
        requires
            textarea_inv(old(self)),
        ensures
            textarea_inv(final(self)),
            final(self).completion == old(self).completion,
            match ta_remove_prev(ta_model(old(self))) {
                Some(m) => r && ta_model(final(self)) == m,
                None => !r && ta_model(final(self)) == ta_model(old(self)),
            },
    {
        if self.buffer.len() == 0 {
            return false;
        }
        let row = self.cursor_position.row.value() as usize;
        let col = self.cursor_position.col.value() as usize;
        if row == 0 && col == 0 {
            return false;
        }
        if col > 0 {
            let mut line = clone_chars(&self.buffer[row]);
            line.remove(col - 1);
            self.buffer[row] = line;
            self.cursor_position.col.sub_assign(1);
            proof {
                assert(ta_model(final(self)).lines =~= ta_remove_prev(
                    ta_model(old(self)),
                ).unwrap().lines);
            }
            true
        } else {
            let prev_len = self.buffer[row - 1].len();
            let cur_len = self.buffer[row].len();
            if prev_len + cur_len > u16::MAX as usize {
                return false;
            }
            let mut cur = clone_chars(&self.buffer[row]);
            let mut prev = clone_chars(&self.buffer[row - 1]);
            prev.append(&mut cur);
            self.buffer[row - 1] = prev;
            self.buffer.remove(row);
            self.cursor_position.row.sub_assign(1);
            self.cursor_position.col = SaturatingU16(prev_len as u16);
            proof {
                assert(ta_model(final(self)).lines =~= ta_remove_prev(
                    ta_model(old(self)),
                ).unwrap().lines);
            }
            true
        }
    }

    /// Deletes under the cursor, as `ta_remove_next` describes; reports
    /// whether anything changed.
    pub fn remove_next_char(&mut self) -> (r: bool)
        requires
            textarea_inv(old(self)),
        ensures
            textarea_inv(final(self)),
            final(self).completion == old(self).completion,
            match ta_remove_next(ta_model(old(self))) {
                Some(m) => r && ta_model(final(self)) == m,
                None => !r && ta_model(final(self)) == ta_model(old(self)),
            },
    {
        if self.buffer.len() == 0 {
            return false;
        }
        let row = self.cursor_position.row.value() as usize;
        let col = self.cursor_position.col.value() as usize;
        if col < self.buffer[row].len() {
            let mut line = clone_chars(&self.buffer[row]);
            line.remove(col);
            self.buffer[row] = line;
            proof {
                assert(ta_model(final(self)).lines =~= ta_remove_next(
                    ta_model(old(self)),
                ).unwrap().lines);
            }
            return true;
        }
        if row + 1 < self.buffer.len() {
            let cur_len = self.buffer[row].len();
            let nxt_len = self.buffer[row + 1].len();
            if cur_len + nxt_len > u16::MAX as usize {
                return false;
            }
            let mut nxt = clone_chars(&self.buffer[row + 1]);
            let mut cur = clone_chars(&self.buffer[row]);
            cur.append(&mut nxt);
            self.buffer[row] = cur;
            self.buffer.remove(row + 1);
            proof {
                assert(ta_model(final(self)).lines =~= ta_remove_next(
                    ta_model(old(self)),
                ).unwrap().lines);
            }
            return true;
        }
        false
    }

    /// Commits `candidate` into the current line, as `ta_replaced` describes.
    pub fn replace_last_word(&mut self, candidate: &String)
        requires
            textarea_inv(old(self)),
        ensures
            textarea_inv(final(self)),
            ta_model(final(self)) == ta_replaced(ta_model(old(self)), candidate@),
            final(self).completion == old(self).completion,
    {
        if self.buffer.len() == 0 {
            return;
        }
        let row = self.cursor_position.row.value() as usize;
        let col = self.cursor_position.col.value() as usize;
        let ghost m = ta_model(old(self));
        let ghost curv = m.lines[m.row];
        let cur = clone_chars(&self.buffer[row]);
        let mut prefix: Vec<char> = Vec::new();
        let mut i: usize = 0;
        while i < col
            invariant
                col <= cur@.len(),
                cur@ == curv,
                i <= col,
                prefix@ == cur@.subrange(0, i as int),
            decreases col - i,
        {
            prefix.push(cur[i]);
            i = i + 1;
            assert(prefix@ =~= cur@.subrange(0, i as int));
        }
        let ws: usize = match sql_utils::find_last_separator(&prefix) {
            Some(pat) => pat.index + pat.length,
            None => 0,
        };
        assert(ws == word_start(curv.subrange(0, col as int)));
        let text_chars = strutil::chars_of(candidate.as_str());
        let mut newline: Vec<char> = Vec::new();
        let mut j: usize = 0;
        while j < ws
            invariant
                ws <= cur@.len(),
                cur@ == curv,
                j <= ws,
                newline@ == cur@.subrange(0, j as int),
            decreases ws - j,
        {
            newline.push(cur[j]);
            j = j + 1;
            assert(newline@ =~= cur@.subrange(0, j as int));
        }
        let mut j: usize = 0;
        while j < text_chars.len()
            invariant
                ws <= cur@.len(),
                cur@ == curv,
                j <= text_chars@.len(),
                newline@ == cur@.subrange(0, ws as int) + text_chars@.subrange(0, j as int),
            decreases text_chars@.len() - j,
        {
            newline.push(text_chars[j]);
            j = j + 1;
            assert(newline@ =~= cur@.subrange(0, ws as int) + text_chars@.subrange(0, j as int));
        }
        proof {
            assert(text_chars@.subrange(0, text_chars@.len() as int) =~= text_chars@);
        }
        let new_col = newline.len();
        let mut j: usize = col;
        while j < cur.len()
            invariant
                ws <= col <= j <= cur@.len(),
                cur@ == curv,
                new_col == ws + text_chars@.len(),
                newline@ == cur@.subrange(0, ws as int) + text_chars@ + cur@.subrange(
                    col as int,
                    j as int,
                ),
            decreases cur@.len() - j,
        {
            newline.push(cur[j]);
            j = j + 1;
            assert(newline@ =~= cur@.subrange(0, ws as int) + text_chars@ + cur@.subrange(
                col as int,
                j as int,
            ));
        }
        if newline.len() > u16::MAX as usize {
            return;
        }
        self.buffer[row] = newline;
        self.cursor_position.col = SaturatingU16(new_col as u16);
        proof {
            assert(ta_model(final(self)).lines =~= ta_replaced(m, candidate@).lines);
        }
    }

    /// Commits the selected candidate if there is one; reports whether the
    /// line changed.
    pub fn complete_word(&mut self) -> (r: bool)
        requires
            textarea_inv(old(self)),
        ensures
            textarea_inv(final(self)),
            r <==> old(self).completion.selected is Some,
            !r ==> *final(self) == *old(self),
            r ==> ta_model(final(self)) == ta_replaced(
                ta_model(old(self)),
                (match old(self).completion.selected {
                    Some(i) => old(self).completion.candidates@[i as int]@,
                    None => Seq::empty(),
                }),
            ),
            r ==> final(self).completion.word@.len() == 0,
    {
        let cand = self.completion.selected_candidate();
        match cand {
            Some(c) => {
                self.replace_last_word(&c);
                self.completion.reset();
                true
            },
            None => false,
        }
    }

    /// Refreshes the dropdown from the word part before the cursor; with no
    /// lines yet, nothing changes.
    pub fn update_completion(&mut self)
        requires
            textarea_inv(old(self)),
        ensures
            textarea_inv(final(self)),
            ta_model(final(self)) == ta_model(old(self)),
            ta_model(old(self)).lines.len() == 0 ==> *final(self) == *old(self),
            ta_model(old(self)).lines.len() > 0 ==> final(self).completion.word@
                == last_word_part_of(
                cur_line(ta_model(old(self))).subrange(0, ta_model(old(self)).col),
            ),
    {
        if self.buffer.len() == 0 {
            return;
        }
        let row = self.cursor_position.row.value() as usize;
        let col = self.cursor_position.col.value() as usize;
        let mut prefix: Vec<char> = Vec::new();
        let mut i: usize = 0;
        while i < col
            invariant
                self == old(self),
                textarea_inv(old(self)),
                ta_model(old(self)).lines.len() > 0,
                row == ta_model(old(self)).row,
                col == ta_model(old(self)).col,
                col <= self.buffer@[row as int]@.len(),
                row < self.buffer@.len(),
                i <= col,
                prefix@ == self.buffer@[row as int]@.subrange(0, i as int),
            decreases col - i,
        {
            prefix.push(self.buffer[row][i]);
            i = i + 1;
            assert(prefix@ =~= self.buffer@[row as int]@.subrange(0, i as int));
        }
        let word = match sql_utils::find_last_separator(&prefix) {
            Some(pat) => {
                let mut w: Vec<char> = Vec::new();
                let mut j: usize = pat.index + pat.length;
                while j < prefix.len()
                    invariant
                        pat.index + pat.length <= prefix@.len(),
                        pat.index + pat.length <= j <= prefix@.len(),
                        w@ == prefix@.subrange(pat.index + pat.length, j as int),
                    decreases prefix@.len() - j,
                {
                    w.push(prefix[j]);
                    j = j + 1;
                    assert(w@ =~= prefix@.subrange(pat.index + pat.length, j as int));
                }
                w
            },
            None => prefix,
        };
        proof {
            assert(word@ =~= last_word_part_of(
                cur_line(ta_model(old(self))).subrange(0, ta_model(old(self)).col),
            ));
        }
        self.completion.update(strutil::string_from_chars(&word));
    }
}

impl Component for TextArea {
    open spec fn inv(&self) -> bool {
        textarea_inv(self)
    }

    fn commands(&self, _out: &mut Vec<CommandInfo>) {
    }

    /// A visible dropdown takes the configured up/down keys first and
    /// `Enter`/`Tab` commit its candidate; every other key follows `ta_key`.
    /// Arrow keys hide the dropdown; editing keys refresh it from the word
    /// part before the cursor.
    fn event(&mut self, key: Key, message_queue: &mut GlobalMessageQueue) -> (r: Result<
        EventState,
        UiError,
    >)
        ensures
            r is Ok,
            final(message_queue).event_queue == old(message_queue).event_queue,
            (old(self).completion.word@.len() > 0 && (key == old(self).completion.key_config.move_up || key == old(self).completion.key_config.move_down))
                ==> ta_model(final(self)) == ta_model(old(self)) && (r matches Ok(s) && s
                == EventState::Consumed),
            ({
                &&& !(old(self).completion.word@.len() > 0 && (key == old(self).completion.key_config.move_up || key == old(self).completion.key_config.move_down))
                &&& !(key == Key::Enter || key == Key::Tab)
            }) ==> (match ta_key(ta_model(old(self)), key) {
                Some(m) => ta_model(final(self)) == m && (r matches Ok(s) && s
                    == EventState::Consumed),
                None => ta_model(final(self)) == ta_model(old(self)) && (r matches Ok(s) && s
                    == EventState::NotConsumed),
            }),
            ({
                &&& !(old(self).completion.word@.len() > 0 && (key == old(self).completion.key_config.move_up || key == old(self).completion.key_config.move_down))
                &&& (key == Key::Enter || key == Key::Tab)
                &&& old(self).completion.word@.len() > 0
                &&& old(self).completion.selected matches Some(i)
            }) ==> ta_model(final(self)) == ta_replaced(
                ta_model(old(self)),
                (match old(self).completion.selected {
                    Some(i) => old(self).completion.candidates@[i as int]@,
                    None => Seq::empty(),
                }),
            ) && final(self).completion.word@.len() == 0 && (r matches Ok(s) && s
                == EventState::Consumed),
            ({
                &&& !(old(self).completion.word@.len() > 0 && (key == old(self).completion.key_config.move_up || key == old(self).completion.key_config.move_down))
                &&& key == Key::Enter
                &&& (old(self).completion.word@.len() == 0 || old(self).completion.selected
                    is None)
            }) ==> ta_model(final(self)) == ta_newline(ta_model(old(self))) && final(self).completion.word@.len() == 0 && (r matches Ok(s) && s == EventState::Consumed),
            ({
                &&& !(old(self).completion.word@.len() > 0 && (key == old(self).completion.key_config.move_up || key == old(self).completion.key_config.move_down))
                &&& key == Key::Tab
                &&& (old(self).completion.word@.len() == 0 || old(self).completion.selected
                    is None)
            }) ==> ta_model(final(self)) == ta_model(old(self)) && (r matches Ok(s) && s
                == EventState::NotConsumed),
            (key == Key::Left || key == Key::Right || key == Key::Up || key == Key::Down)
                && !(old(self).completion.word@.len() > 0 && (key == old(self).completion.key_config.move_up || key == old(self).completion.key_config.move_down))
                ==> final(self).completion.word@.len() == 0,
    {
        if self.completion.is_visible() {
            let res = self.completion.event(key, message_queue);
            match res {
                Ok(s) => {
                    if s.is_consumed() {
                        return Ok(EventState::Consumed);
                    }
                },
                Err(e) => {
                    return Err(e);
                },
            }
        }
        if let Key::Char(c) = key {
            self.insert_char(c);
            self.update_completion();
            return Ok(EventState::Consumed);
        }
        if key == Key::Enter || key == Key::Tab {
            if self.completion.is_visible() {
                if self.complete_word() {
                    return Ok(EventState::Consumed);
                }
            }
            if key == Key::Enter {
                self.insert_new_line();
                self.completion.reset();
                return Ok(EventState::Consumed);
            }
            return Ok(EventState::NotConsumed);
        }
        if key == Key::Delete {
            if self.remove_next_char() {
                self.update_completion();
                return Ok(EventState::Consumed);
            }
            return Ok(EventState::NotConsumed);
        }
        if key == Key::Backspace {
            if self.remove_prev_char() {
                self.update_completion();
                return Ok(EventState::Consumed);
            }
            return Ok(EventState::NotConsumed);
        }
        if key == Key::Home {
            self.cursor_position.col = SaturatingU16(0);
            return Ok(EventState::Consumed);
        }
        if key == Key::CtrlHome {
            self.cursor_position = CursorPos { row: SaturatingU16(0), col: SaturatingU16(0) };
            return Ok(EventState::Consumed);
        }
        if key == Key::CtrlEnd {
            let n = self.buffer.len();
            if n == 0 {
                self.cursor_position = CursorPos { row: SaturatingU16(0), col: SaturatingU16(0) };
            } else {
                let last_len = self.buffer[n - 1].len();
                self.cursor_position = CursorPos {
                    row: SaturatingU16((n - 1) as u16),
                    col: SaturatingU16(last_len as u16),
                };
            }
            return Ok(EventState::Consumed);
        }
        if key == Key::End {
            let cur_len: usize = if self.buffer.len() == 0 {
                0
            } else {
                self.buffer[self.cursor_position.row.value() as usize].len()
            };
            if (self.cursor_position.col.value() as usize) < cur_len {
                self.cursor_position.col = SaturatingU16(cur_len as u16);
                return Ok(EventState::Consumed);
            }
            return Ok(EventState::NotConsumed);
        }
        if key == Key::Left {
            self.completion.reset();
            let row = self.cursor_position.row.value() as usize;
            let col = self.cursor_position.col.value() as usize;
            if col == 0 && row > 0 {
                let prev_len = self.buffer[row - 1].len();
                self.cursor_position = CursorPos {
                    row: SaturatingU16((row - 1) as u16),
                    col: SaturatingU16(prev_len as u16),
                };
                return Ok(EventState::Consumed);
            } else if col > 0 {
                self.cursor_position.col.sub_assign(1);
                return Ok(EventState::Consumed);
            }
            return Ok(EventState::NotConsumed);
        }
        if key == Key::Right {
            self.completion.reset();
            let row = self.cursor_position.row.value() as usize;
            let col = self.cursor_position.col.value() as usize;
            let n = self.buffer.len();
            let cur_len: usize = if n == 0 {
                0
            } else {
                self.buffer[row].len()
            };
            if n > 0 && col == cur_len && row + 1 < n {
                self.cursor_position = CursorPos {
                    row: SaturatingU16((row + 1) as u16),
                    col: SaturatingU16(0),
                };
                return Ok(EventState::Consumed);
            } else if col < cur_len {
                self.cursor_position.col.add_assign(1);
                return Ok(EventState::Consumed);
            }
            return Ok(EventState::NotConsumed);
        }
        if key == Key::Up {
            self.completion.reset();
            let row = self.cursor_position.row.value() as usize;
            let col = self.cursor_position.col.value() as usize;
            if row > 0 {
                let target_len = self.buffer[row - 1].len();
                self.cursor_position.row.sub_assign(1);
                if col > target_len {
                    self.cursor_position.col = SaturatingU16(target_len as u16);
                }
                return Ok(EventState::Consumed);
            }
            return Ok(EventState::NotConsumed);
        }
        if key == Key::Down {
            self.completion.reset();
            let row = self.cursor_position.row.value() as usize;
            let col = self.cursor_position.col.value() as usize;
            if row + 1 < self.buffer.len() {
                let target_len = self.buffer[row + 1].len();
                self.cursor_position.row.add_assign(1);
                if col > target_len {
                    self.cursor_position.col = SaturatingU16(target_len as u16);
                }
                return Ok(EventState::Consumed);
            }
            return Ok(EventState::NotConsumed);
        }
        Ok(EventState::NotConsumed)
    }

    fn reset(&mut self)
        ensures
            ta_model(final(self)).lines.len() == 0,
            ta_model(final(self)).row == 0,
            ta_model(final(self)).col == 0,
            final(self).completion.word@.len() == 0,
            final(self).completion.key_config == old(self).completion.key_config,
    {
        self.buffer = Vec::new();
        self.cursor_position = CursorPos { row: SaturatingU16(0), col: SaturatingU16(0) };
        self.completion.reset();
    }
}

/// A fresh vector with the same characters.
pub fn clone_chars(v: &Vec<char>) -> (r: Vec<char>)
    ensures
        r@ == v@,
{
    let mut r: Vec<char> = Vec::new();
    let mut i: usize = 0;
    while i < v.len()
        invariant
            i <= v@.len(),
            r@ == v@.subrange(0, i as int),
        decreases v@.len() - i,
    {
        r.push(v[i]);
        i = i + 1;
        assert(r@ =~= v@.subrange(0, i as int));
    }
    assert(v@.subrange(0, v@.len() as int) =~= v@);
    r
}

} // verus!
