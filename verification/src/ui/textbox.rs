//! A single-line text input: a character buffer, a cursor counted in
//! characters, an optional label and placeholder, and an optional embedded
//! completion dropdown.

use vstd::prelude::*;
use crate::config::KeyConfig;
use crate::err::UiError;
use crate::event::Key;
use crate::sql_utils;
use crate::strutil;

verus! {

use vstd::string::StringExecFns;
use crate::app::GlobalMessageQueue;
use crate::components::completion::{CompletionComponent, FilterableCompletionSource};
use crate::components::completion::completion_inv;
use crate::components::{CommandInfo, Component, EventState};
use crate::sql_utils::{
    has_separator,
    is_word_char,
    last_word_part_of,
    nonword_run_start,
    word_start,
};

/// The mathematical state of a text box: its characters and the cursor.
pub ghost struct TextBoxM {
    pub input: Seq<char>,
    pub cursor: int,
}

pub struct TextBox {
    pub placeholder: Option<String>,
    pub label: Option<String>,
    pub input: Vec<char>,
    pub input_cursor_position: usize,
    pub completion: Option<CompletionComponent>,
}

/// The buffer/cursor model of a text box.
pub open spec fn tb_model(t: &TextBox) -> TextBoxM {
    TextBoxM { input: t.input@, cursor: t.input_cursor_position as int }
}

/// The cursor stays inside the buffer, and the dropdown is well formed.
pub open spec fn textbox_inv(t: &TextBox) -> bool {
    &&& t.input_cursor_position <= t.input@.len()
    &&& match t.completion {
        Some(c) => completion_inv(&c),
        None => true,
    }
}

/// Committing `text`: the word part before the cursor is replaced by `text`,
/// the rest of the buffer is kept, and the cursor lands after the insertion.
pub open spec fn replaced_model(m: TextBoxM, text: Seq<char>) -> TextBoxM {
    let prefix = m.input.subrange(0, m.cursor);
    let ws = word_start(prefix);
    TextBoxM {
        input: m.input.subrange(0, ws) + text + m.input.subrange(m.cursor, m.input.len() as int),
        cursor: ws + text.len(),
    }
}

/// What one key does to the buffer and cursor; `None` when the key is not a
/// text-box key and bubbles up.
pub open spec fn textbox_step(m: TextBoxM, key: Key) -> Option<TextBoxM> {
    match key {
        Key::Char(c) => Some(
            TextBoxM { input: m.input.insert(m.cursor, c), cursor: m.cursor + 1 },
        ),
        Key::Delete => Some(
            if m.cursor < m.input.len() {
                TextBoxM { input: m.input.remove(m.cursor), cursor: m.cursor }
            } else {
                m
            },
        ),
        Key::CtrlLeft => Some(
            TextBoxM {
                input: m.input,
                cursor: crate::sql_utils::prev_word_boundary(m.input.subrange(0, m.cursor)),
            },
        ),
        Key::CtrlBackspace => Some(
            if !has_separator(m.input) {
                TextBoxM { input: Seq::empty(), cursor: 0 }
            } else {
                let e = word_start(m.input);
                let st = nonword_run_start(m.input, e);
                if e == m.cursor {
                    TextBoxM { input: m.input.subrange(0, st), cursor: st }
                } else {
                    TextBoxM { input: m.input.subrange(0, e), cursor: e }
                }
            },
        ),
        Key::Backspace => Some(
            if m.cursor > 0 {
                TextBoxM { input: m.input.remove(m.cursor - 1), cursor: m.cursor - 1 }
            } else {
                m
            },
        ),
        Key::Left => Some(
            if m.cursor > 0 {
                TextBoxM { input: m.input, cursor: m.cursor - 1 }
            } else {
                m
            },
        ),
        Key::Right => Some(
            if m.cursor < m.input.len() {
                TextBoxM { input: m.input, cursor: m.cursor + 1 }
            } else {
                m
            },
        ),
        Key::Ctrl('a') | Key::Home => Some(TextBoxM { input: m.input, cursor: 0 }),
        Key::Ctrl('e') | Key::End => Some(
            TextBoxM { input: m.input, cursor: m.input.len() as int },
        ),
        _ => None,
    }
}

impl TextBox {
    pub fn default() -> (r: TextBox)
        ensures
            textbox_inv(&r),
            r.input@.len() == 0,
            r.input_cursor_position == 0,
            r.placeholder is None,
            r.label is None,
            r.completion is None,
    {
        TextBox {
            placeholder: None,
            label: None,
            input: Vec::new(),
            input_cursor_position: 0,
            completion: None,
        }
    }

    pub fn with_placeholder(self, placeholder: String) -> (r: TextBox)
        ensures
            r == (TextBox { placeholder: Some(placeholder), ..self }),
    {
        TextBox { placeholder: Some(placeholder), ..self }
    }

    pub fn with_label(self, label: String) -> (r: TextBox)
        ensures
            r.placeholder == self.placeholder,
            r.input == self.input,
            r.input_cursor_position == self.input_cursor_position,
            r.completion == self.completion,
            r.label matches Some(l) && l@ == label@ + " "@,
    {
        let mut t = self;
        t.set_label(label);
        t
    }

    pub fn with_completion(self, key_config: KeyConfig) -> (r: TextBox)
        ensures
            r.placeholder == self.placeholder,
            r.label == self.label,
            r.input == self.input,
            r.input_cursor_position == self.input_cursor_position,
            r.completion matches Some(c) && completion_inv(&c) && c.word@.len() == 0,
    {
        TextBox { completion: Some(CompletionComponent::new(key_config)), ..self }
    }

    /// Swaps the completion source; without a dropdown this has no effect.
    pub fn update_completion_src(&mut self, src: Box<dyn FilterableCompletionSource>)
        requires
            textbox_inv(old(self)),
        ensures
            textbox_inv(final(self)),
            tb_model(final(self)) == tb_model(old(self)),
            final(self).label == old(self).label,
            final(self).placeholder == old(self).placeholder,
    {
        if let Some(c) = &mut self.completion {
            c.completion_source = src;
        }
    }

    /// The buffer as a string.
    pub fn get_text(&self) -> (r: String)
        ensures
            r@ == self.input@,
    {
        strutil::string_from_chars(&self.input)
    }

    /// The text between the last separator before the cursor and the cursor.
    pub fn last_word_part(&self) -> (r: Option<String>)
        requires
            textbox_inv(self),
        ensures
            r matches Some(w) && w@ == last_word_part_of(
                self.input@.subrange(0, self.input_cursor_position as int),
            ),
    {
        let mut prefix: Vec<char> = Vec::new();
        let mut i: usize = 0;
        while i < self.input_cursor_position
            invariant
                self.input_cursor_position <= self.input@.len(),
                i <= self.input_cursor_position,
                prefix@ == self.input@.subrange(0, i as int),
            decreases self.input_cursor_position - i,
        {
            prefix.push(self.input[i]);
            i = i + 1;
            assert(prefix@ =~= self.input@.subrange(0, i as int));
        }
        let ghost p = self.input@.subrange(0, self.input_cursor_position as int);
        let word = match sql_utils::find_last_separator(&prefix) {
            Some(pat) => {
                let mut w: Vec<char> = Vec::new();
                let mut j: usize = pat.index + pat.length;
                while j < prefix.len()
                    invariant
                        pat.index + pat.length <= prefix@.len(),
                        pat.index + pat.length <= j <= prefix@.len(),
                        w@ == prefix@.subrange(pat.index + pat.length, j as int),
                    decreases prefix@.len() - j,
                {
                    w.push(prefix[j]);
                    j = j + 1;
                    assert(w@ =~= prefix@.subrange(pat.index + pat.length, j as int));
                }
                w
            },
            None => prefix,
        };
        proof {
            assert(word@ =~= last_word_part_of(p));
        }
        Some(strutil::string_from_chars(&word))
    }

    /// Replaces the whole buffer; the cursor moves to the end.
    pub fn set_str(&mut self, value: &String)
        requires
            textbox_inv(old(self)),
        ensures
            textbox_inv(final(self)),
            final(self).input@ == value@,
            final(self).input_cursor_position == value@.len(),
            final(self).completion == old(self).completion,
            final(self).label == old(self).label,
            final(self).placeholder == old(self).placeholder,
    {
        self.input = strutil::chars_of(value.as_str());
        self.input_cursor_position = self.input.len();
    }

    /// Sets the label, which is rendered with a trailing space.
    pub fn set_label(&mut self, label: String)
        ensures
            final(self).label matches Some(l) && l@ == label@ + " "@,
            final(self).input == old(self).input,
            final(self).input_cursor_position == old(self).input_cursor_position,
            final(self).completion == old(self).completion,
            final(self).placeholder == old(self).placeholder,
    {
        self.label = Some(label.concat(" "));
    }

    /// Clears the buffer and hides the completion dropdown.
    pub fn reset(&mut self)
        requires
            textbox_inv(old(self)),
        ensures
            textbox_inv(final(self)),
            final(self).input@.len() == 0,
            final(self).input_cursor_position == 0,
            final(self).label == old(self).label,
            final(self).placeholder == old(self).placeholder,
            (final(self).completion matches Some(c) ==> c.word@.len() == 0),
            (old(self).completion is None ==> final(self).completion is None),
    {
        self.input = Vec::new();
        self.input_cursor_position = 0;
        if let Some(c) = &mut self.completion {
            c.reset();
        }
    }

    /// Where the cursor sits, in display columns from the field's left edge
    /// (label included), clamped to the terminal coordinate range.
    pub fn cursor_display_column(&self) -> (r: u16)
        requires
            textbox_inv(self),
        ensures
            r == ({
                let label = match self.label {
                    Some(l) => l@,
                    None => Seq::empty(),
                };
                let lw = if crate::components::width_sum(label) < u16::MAX as int {
                    crate::components::width_sum(label)
                } else {
                    u16::MAX as int
                };
                let tw = if crate::components::width_sum(
                    self.input@.subrange(0, self.input_cursor_position as int),
                ) < u16::MAX as int {
                    crate::components::width_sum(
                        self.input@.subrange(0, self.input_cursor_position as int),
                    )
                } else {
                    u16::MAX as int
                };
                if lw + tw < u16::MAX as int {
                    lw + tw
                } else {
                    u16::MAX as int
                }
            }),
    {
        let label_width: u16 = match &self.label {
            Some(l) => {
                let lc = strutil::chars_of(l.as_str());
                let w = crate::components::display_width_upto(&lc, lc.len());
                proof {
                    assert(lc@.subrange(0, lc@.len() as int) =~= lc@);
                }
                w
            },
            None => 0,
        };
        let text_width = crate::components::display_width_upto(
            &self.input,
            self.input_cursor_position,
        );
        if text_width >= u16::MAX - label_width {
            u16::MAX
        } else {
            label_width + text_width
        }
    }

    /// The draw-time horizontal scroll: the buffer scrolls just far enough
    /// that the cursor column stays inside the viewport.
    pub fn scroll_offset(&self, viewport_width: u16) -> (r: u16)
        requires
            textbox_inv(self),
            self.input@.len() <= u16::MAX,
        ensures
            r == if self.input_cursor_position > viewport_width {
                self.input_cursor_position - viewport_width
            } else {
                0
            },
    {
        let cursor = self.input_cursor_position;
        if cursor > viewport_width as usize {
            (cursor - viewport_width as usize) as u16
        } else {
            0
        }
    }

    /// Replaces the text between the last separator before the cursor and
    /// the cursor with `text`; the rest of the buffer is kept and the cursor
    /// lands right after the insertion.  When `text` is all word characters,
    /// the word part afterwards is exactly `text`.
    pub fn replace_last_word_part(&mut self, text: String)
        requires
            textbox_inv(old(self)),
        ensures
            textbox_inv(final(self)),
            tb_model(final(self)) == replaced_model(tb_model(old(self)), text@),
            final(self).completion == old(self).completion,
            final(self).label == old(self).label,
            final(self).placeholder == old(self).placeholder,
            (forall|i: int| 0 <= i < text@.len() ==> is_word_char(#[trigger] text@[i]))
                ==> last_word_part_of(
                final(self).input@.subrange(0, final(self).input_cursor_position as int),
            ) == text@,
    {
        let ghost m = tb_model(old(self));
        let ghost prefix = m.input.subrange(0, m.cursor);
        let mut pre: Vec<char> = Vec::new();
        let mut i: usize = 0;
        while i < self.input_cursor_position
            invariant
                self == old(self),
                self.input_cursor_position <= self.input@.len(),
                i <= self.input_cursor_position,
                pre@ == self.input@.subrange(0, i as int),
            decreases self.input_cursor_position - i,
        {
            pre.push(self.input[i]);
            i = i + 1;
            assert(pre@ =~= self.input@.subrange(0, i as int));
        }
        let ws: usize = match sql_utils::find_last_separator(&pre) {
            Some(pat) => pat.index + pat.length,
            None => 0,
        };
        assert(ws == word_start(prefix));
        let text_chars = strutil::chars_of(text.as_str());
        let mut out: Vec<char> = Vec::new();
        let mut j: usize = 0;
        while j < ws
            invariant
                self == old(self),
                ws <= self.input@.len(),
                j <= ws,
                out@ == self.input@.subrange(0, j as int),
            decreases ws - j,
        {
            out.push(self.input[j]);
            j = j + 1;
            assert(out@ =~= self.input@.subrange(0, j as int));
        }
        let mut j: usize = 0;
        while j < text_chars.len()
            invariant
                self == old(self),
                ws <= self.input@.len(),
                j <= text_chars@.len(),
                out@ == self.input@.subrange(0, ws as int) + text_chars@.subrange(0, j as int),
            decreases text_chars@.len() - j,
        {
            out.push(text_chars[j]);
            j = j + 1;
            assert(out@ =~= self.input@.subrange(0, ws as int) + text_chars@.subrange(
                0,
                j as int,
            ));
        }
        proof {
            assert(text_chars@.subrange(0, text_chars@.len() as int) =~= text_chars@);
        }
        let new_cursor = out.len();
        let mut j: usize = self.input_cursor_position;
        while j < self.input.len()
            invariant
                self == old(self),
                self.input_cursor_position <= j <= self.input@.len(),
                ws <= self.input@.len(),
                new_cursor == ws + text_chars@.len(),
                out@ == self.input@.subrange(0, ws as int) + text_chars@
                    + self.input@.subrange(self.input_cursor_position as int, j as int),
            decreases self.input@.len() - j,
        {
            out.push(self.input[j]);
            j = j + 1;
            assert(out@ =~= self.input@.subrange(0, ws as int) + text_chars@
                + self.input@.subrange(self.input_cursor_position as int, j as int));
        }
        self.input = out;
        self.input_cursor_position = new_cursor;
        proof {
            lemma_replace_word_part(m, text@, ws as int);
        }
    }

    /// Commits the selected completion candidate, if the dropdown is visible
    /// and has one; reports whether anything was replaced.
    pub fn complete_word(&mut self) -> (r: bool)
        requires
            textbox_inv(old(self)),
        ensures
            textbox_inv(final(self)),
            final(self).label == old(self).label,
            final(self).placeholder == old(self).placeholder,
            r <==> ({
                &&& old(self).completion matches Some(c)
                &&& c.word@.len() > 0
                &&& c.selected is Some
            }),
            r ==> (final(self).completion matches Some(c) && c.word@.len() == 0),
            !r ==> final(self).completion == old(self).completion,
            !r ==> tb_model(final(self)) == tb_model(old(self)),
            r ==> ({
                &&& old(self).completion matches Some(c)
                &&& c.word@.len() > 0
                &&& c.selected matches Some(i)
                &&& tb_model(final(self)) == replaced_model(
                    tb_model(old(self)),
                    c.candidates@[i as int]@,
                )
            }),
    {
        let cand_opt = match &mut self.completion {
            Some(completion) => {
                if !completion.is_visible() {
                    None
                } else {
                    let c = completion.selected_candidate();
                    if c.is_some() {
                        completion.reset();
                    }
                    c
                }
            },
            None => None,
        };
        match cand_opt {
            Some(candidate) => {
                self.replace_last_word_part(candidate);
                true
            },
            None => false,
        }
    }

    /// Single-key handling: insertion, deletion, and cursor
    /// movement, exactly as `textbox_step` describes.
    pub fn handle_textbox_event(&mut self, key: Key) -> (r: Result<EventState, UiError>)
        requires
            textbox_inv(old(self)),
        ensures
            textbox_inv(final(self)),
            final(self).completion == old(self).completion,
            final(self).label == old(self).label,
            final(self).placeholder == old(self).placeholder,
            match textbox_step(tb_model(old(self)), key) {
                Some(m) => r matches Ok(s) && s == EventState::Consumed && tb_model(final(self))
                    == m,
                None => r matches Ok(s) && s == EventState::NotConsumed && tb_model(final(self))
                    == tb_model(old(self)),
            },
    {
        match key {
            Key::Char(c) => {
                self.input.insert(self.input_cursor_position, c);
                proof {
                    vstd::std_specs::vec::axiom_spec_len(&self.input);
                }
                self.input_cursor_position = self.input_cursor_position + 1;
                Ok(EventState::Consumed)
            },
            Key::Delete => {
                if self.input_cursor_position < self.input.len() {
                    self.input.remove(self.input_cursor_position);
                }
                Ok(EventState::Consumed)
            },
            Key::CtrlLeft => {
                let mut prefix: Vec<char> = Vec::new();
                let mut i: usize = 0;
                while i < self.input_cursor_position
                    invariant
                        self == old(self),
                        self.input_cursor_position <= self.input@.len(),
                        i <= self.input_cursor_position,
                        prefix@ == self.input@.subrange(0, i as int),
                    decreases self.input_cursor_position - i,
                {
                    prefix.push(self.input[i]);
                    i = i + 1;
                    assert(prefix@ =~= self.input@.subrange(0, i as int));
                }
                let ghost p = self.input@.subrange(0, self.input_cursor_position as int);
                let target: usize = match sql_utils::find_last_separator(&prefix) {
                    Some(pat) => {
                        let e = pat.index + pat.length;
                        if e < prefix.len() {
                            e
                        } else {
                            proof {
                                sql_utils::lemma_nonword_run_start_unique(
                                    p,
                                    e as int,
                                    pat.index as int,
                                );
                            }
                            prefix.truncate(pat.index);
                            match sql_utils::find_last_separator(&prefix) {
                                Some(p2) => p2.index + p2.length,
                                None => 0,
                            }
                        }
                    },
                    None => 0,
                };
                self.input_cursor_position = target;
                Ok(EventState::Consumed)
            },
            Key::CtrlBackspace => {
                match sql_utils::find_last_separator(&self.input) {
                    Some(pos) => {
                        proof {
                            vstd::std_specs::vec::axiom_spec_len(&self.input);
                        }
                        let e = pos.index + pos.length;
                        proof {
                            sql_utils::lemma_nonword_run_start_unique(
                                self.input@,
                                e as int,
                                pos.index as int,
                            );
                        }
                        if e == self.input_cursor_position {
                            self.input.truncate(pos.index);
                            self.input_cursor_position = pos.index;
                        } else {
                            self.input.truncate(e);
                            self.input_cursor_position = e;
                        }
                        proof {
                            assert(final(self).input@ =~= tb_model_step_ctrlback(
                                tb_model(old(self)),
                            ).input);
                        }
                    },
                    None => {
                        self.input = Vec::new();
                        self.input_cursor_position = 0;
                    },
                }
                Ok(EventState::Consumed)
            },
            Key::Backspace => {
                if self.input_cursor_position > 0 {
                    self.input_cursor_position = self.input_cursor_position - 1;
                    self.input.remove(self.input_cursor_position);
                }
                Ok(EventState::Consumed)
            },
            Key::Left => {
                if self.input_cursor_position > 0 {
                    self.input_cursor_position = self.input_cursor_position - 1;
                }
                Ok(EventState::Consumed)
            },
            Key::Right => {
                if self.input_cursor_position < self.input.len() {
                    self.input_cursor_position = self.input_cursor_position + 1;
                }
                Ok(EventState::Consumed)
            },
            Key::Ctrl('a') | Key::Home => {
                self.input_cursor_position = 0;
                Ok(EventState::Consumed)
            },
            Key::Ctrl('e') | Key::End => {
                self.input_cursor_position = self.input.len();
                Ok(EventState::Consumed)
            },
            _ => Ok(EventState::NotConsumed),
        }
    }
}

/// The buffer after Ctrl+Backspace, for use in proofs.
pub open spec fn tb_model_step_ctrlback(m: TextBoxM) -> TextBoxM {
    match textbox_step(m, Key::CtrlBackspace) {
        Some(r) => r,
        None => m,
    }
}

proof fn lemma_replace_word_part(m: TextBoxM, text: Seq<char>, ws: int)
    requires
        0 <= m.cursor <= m.input.len(),
        ws == word_start(m.input.subrange(0, m.cursor)),
    ensures
        (forall|i: int| 0 <= i < text.len() ==> is_word_char(#[trigger] text[i]))
            ==> last_word_part_of(
            (m.input.subrange(0, ws) + text + m.input.subrange(m.cursor, m.input.len() as int))
                .subrange(0, ws + text.len()),
        ) == text,
{
    if (forall|i: int| 0 <= i < text.len() ==> is_word_char(#[trigger] text[i])) {
        lemma_replace_word_part_holds(m, text, ws);
    }
}

proof fn lemma_replace_word_part_holds(m: TextBoxM, text: Seq<char>, ws: int)
    requires
        0 <= m.cursor <= m.input.len(),
        ws == word_start(m.input.subrange(0, m.cursor)),
        forall|i: int| 0 <= i < text.len() ==> is_word_char(#[trigger] text[i]),
    ensures
        last_word_part_of(
            (m.input.subrange(0, ws) + text + m.input.subrange(m.cursor, m.input.len() as int))
                .subrange(0, ws + text.len()),
        ) == text,
{
    let prefix = m.input.subrange(0, m.cursor);
    sql_utils::lemma_word_start_bounds(prefix);
    let full = m.input.subrange(0, ws) + text + m.input.subrange(m.cursor, m.input.len() as int);
    let newpre = full.subrange(0, ws + text.len());
    assert(newpre =~= m.input.subrange(0, ws) + text);
    assert(forall|k: int| ws <= k < newpre.len() ==> #[trigger] newpre[k] == text[k - ws]);
    assert forall|k: int| 0 <= k < ws implies #[trigger] newpre[k] == prefix[k] by {
        assert(newpre[k] == m.input.subrange(0, ws)[k]);
    }
    sql_utils::lemma_word_start_unique(newpre, ws);
    assert(last_word_part_of(newpre) =~= text);
}

impl Component for TextBox {
    open spec fn inv(&self) -> bool {
        textbox_inv(self)
    }

    fn commands(&self, _out: &mut Vec<CommandInfo>) {
    }

    /// Editing keys follow `textbox_step` and refresh the dropdown from the
    /// word part; `Enter`/`Tab` commit a visible candidate and otherwise
    /// bubble up; `Esc` hides a visible dropdown.
    fn event(&mut self, key: Key, message_queue: &mut GlobalMessageQueue) -> (r: Result<
        EventState,
        UiError,
    >)
        ensures
            r is Ok,
            final(message_queue).event_queue == old(message_queue).event_queue,
            final(self).label == old(self).label,
            final(self).placeholder == old(self).placeholder,
            (match textbox_step(tb_model(old(self)), key) {
                Some(m) => tb_model(final(self)) == m && (r matches Ok(s) && s
                    == EventState::Consumed) && (old(self).completion is Some ==> ({
                    &&& final(self).completion matches Some(c)
                    &&& c.word@ == last_word_part_of(m.input.subrange(0, m.cursor))
                })),
                None => true,
            }),
            (textbox_step(tb_model(old(self)), key) is None && key != Key::Enter && key
                != Key::Tab) ==> tb_model(final(self)) == tb_model(old(self)),
            old(self).completion is None ==> final(self).completion is None,
            ({
                &&& textbox_step(tb_model(old(self)), key) is None
                &&& (key == Key::Enter || key == Key::Tab)
                &&& old(self).completion matches Some(c)
                &&& key != c.key_config.move_down
                &&& key != c.key_config.move_up
                &&& c.word@.len() > 0
                &&& c.selected matches Some(i)
            }) ==> tb_model(final(self)) == replaced_model(
                tb_model(old(self)),
                (match old(self).completion {
                    Some(c) => match c.selected {
                        Some(i) => c.candidates@[i as int]@,
                        None => Seq::empty(),
                    },
                    None => Seq::empty(),
                }),
            ) && (final(self).completion matches Some(c) && c.word@.len() == 0) && (
            r matches Ok(s) && s == EventState::Consumed),
            ((key == Key::Enter || key == Key::Tab) && (old(self).completion matches Some(c)
                ==> (c.word@.len() == 0 && key != c.key_config.move_down && key
                != c.key_config.move_up)) ==> tb_model(final(self)) == tb_model(old(self)) && (
            r matches Ok(s) && s == EventState::NotConsumed)),
            (key == Key::Esc && (old(self).completion matches Some(c) ==> (c.word@.len() == 0
                && key != c.key_config.move_down && key != c.key_config.move_up)) ==> tb_model(
                final(self),
            ) == tb_model(old(self)) && (r matches Ok(s) && s == EventState::NotConsumed)),
            ({
                &&& key == Key::Esc
                &&& old(self).completion matches Some(c)
                &&& c.word@.len() > 0
                &&& key != c.key_config.move_down
                &&& key != c.key_config.move_up
            }) ==> tb_model(final(self)) == tb_model(old(self)) && (final(self).completion matches Some(c) && c.word@.len() == 0) && (r matches Ok(s) && s
                == EventState::Consumed),
    {
        let first = self.handle_textbox_event(key);
        let consumed = match first {
            Ok(s) => s,
            Err(e) => {
                return Err(e);
            },
        };
        if consumed.is_consumed() {
            if self.completion.is_some() {
                let lw = self.last_word_part();
                if let Some(lp) = lw {
                    if let Some(c) = &mut self.completion {
                        c.update(lp);
                    }
                }
            }
            return Ok(EventState::Consumed);
        }
        let comp_consumed = match &mut self.completion {
            Some(comp) => {
                let res = comp.event(key, message_queue);
                match res {
                    Ok(s) => s.is_consumed(),
                    Err(e) => {
                        return Err(e);
                    },
                }
            },
            None => false,
        };
        if comp_consumed {
            return Ok(EventState::Consumed);
        }
        match key {
            Key::Enter | Key::Tab => {
                if self.complete_word() {
                    Ok(EventState::Consumed)
                } else {
                    Ok(EventState::NotConsumed)
                }
            },
            Key::Esc => {
                match &mut self.completion {
                    Some(completion) => {
                        if completion.is_visible() {
                            completion.reset();
                            Ok(EventState::Consumed)
                        } else {
                            Ok(EventState::NotConsumed)
                        }
                    },
                    None => Ok(EventState::NotConsumed),
                }
            },
            _ => Ok(EventState::NotConsumed),
        }
    }

    fn reset(&mut self)
        ensures
            final(self).input@.len() == 0,
            final(self).input_cursor_position == 0,
            final(self).label == old(self).label,
            final(self).placeholder == old(self).placeholder,
            (final(self).completion matches Some(c) ==> c.word@.len() == 0),
            (old(self).completion is None ==> final(self).completion is None),
    {
        self.input = Vec::new();
        self.input_cursor_position = 0;
        if let Some(c) = &mut self.completion {
            c.reset();
        }
    }
}

} // verus!
