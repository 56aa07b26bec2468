//! The filter box over the record grid: a plain text input driving a
//! pool-backed completion dropdown.

use vstd::prelude::*;
use crate::config::KeyConfig;
use crate::dbtree::Table;
use crate::err::UiError;
use crate::event::Key;

verus! {

use vstd::string::StringExecFns;
use crate::app::GlobalMessageQueue;
use crate::components::completion::{completion_inv, CompletionComponent};
use crate::components::{CommandInfo, Component, EventState};
use crate::sql_utils::last_word_part_of;
use crate::ui::textbox::{replaced_model, tb_model, textbox_inv, textbox_step, TextBox};

pub struct TableFilterComponent {
    pub key_config: KeyConfig,
    pub table: Option<Table>,
    pub text_box: TextBox,
    pub completion: CompletionComponent,
}

pub open spec fn filter_inv(t: &TableFilterComponent) -> bool {
    &&& textbox_inv(&t.text_box)
    &&& completion_inv(&t.completion)
}

impl TableFilterComponent {
    pub fn new(key_config: KeyConfig) -> (r: TableFilterComponent)
        ensures
            filter_inv(&r),
            r.table is None,
            tb_model(&r.text_box).input.len() == 0,
            tb_model(&r.text_box).cursor == 0,
            r.completion.word@.len() == 0,
    {
        TableFilterComponent {
            key_config,
            table: None,
            text_box: TextBox::default().with_placeholder(
                String::from_str("Enter SQL expression to filter records"),
            ),
            completion: CompletionComponent::new(key_config),
        }
    }

    /// Binds the filter to a table; its name becomes the label.
    pub fn set_table(&mut self, table: Table)
        requires
            filter_inv(old(self)),
        ensures
            filter_inv(final(self)),
            final(self).table matches Some(t) && t@ == table@,
            tb_model(&final(self).text_box) == tb_model(&old(self).text_box),
            (final(self).text_box.label matches Some(l) && l@ == table@.name + " "@),
    {
        self.text_box.set_label(table.name.clone());
        self.table = Some(table);
    }

    /// The filter text.
    pub fn input_str(&self) -> (r: String)
        ensures
            r@ == self.text_box.input@,
    {
        self.text_box.get_text()
    }

    /// Unbinds the table and clears the text.
    pub fn reset(&mut self)
        requires
            filter_inv(old(self)),
        ensures
            filter_inv(final(self)),
            final(self).table is None,
            tb_model(&final(self).text_box).input.len() == 0,
            tb_model(&final(self).text_box).cursor == 0,
    {
        self.table = None;
        self.text_box.reset();
    }

    /// Commits the selected candidate into the buffer; reports whether the
    /// buffer changed.
    pub fn complete(&mut self) -> (r: Result<EventState, UiError>)
        requires
            filter_inv(old(self)),
        ensures
            filter_inv(final(self)),
            ({
                &&& old(self).completion.word@.len() > 0
                &&& old(self).completion.selected matches Some(i)
            }) ==> tb_model(&final(self).text_box) == replaced_model(
                tb_model(&old(self).text_box),
                (match old(self).completion.selected {
                    Some(i) => old(self).completion.candidates@[i as int]@,
                    None => Seq::empty(),
                }),
            ) && final(self).completion.word@.len() == 0 && (r matches Ok(s) && s
                == EventState::Consumed),
            !({
                &&& old(self).completion.word@.len() > 0
                &&& old(self).completion.selected matches Some(i)
            }) ==> tb_model(&final(self).text_box) == tb_model(&old(self).text_box) && (
            r matches Ok(s) && s == EventState::NotConsumed),
    {
        if self.completion.is_visible() {
            let cand = self.completion.selected_candidate();
            if let Some(candidate) = cand {
                self.text_box.replace_last_word_part(candidate);
                self.completion.reset();
                return Ok(EventState::Consumed);
            }
        }
        Ok(EventState::NotConsumed)
    }
}

impl Component for TableFilterComponent {
    open spec fn inv(&self) -> bool {
        filter_inv(self)
    }

    fn commands(&self, _out: &mut Vec<CommandInfo>) {
    }

    /// Editing keys follow the text-box step and refresh the dropdown from
    /// the word part; `Enter` commits a visible candidate; dropdown up/down
    /// keys move its selection.
    fn event(&mut self, key: Key, message_queue: &mut GlobalMessageQueue) -> (r: Result<
        EventState,
        UiError,
    >)
        ensures
            final(self).table == old(self).table,
            (match textbox_step(tb_model(&old(self).text_box), key) {
                Some(m) => tb_model(&final(self).text_box) == m && final(self).completion.word@
                    == last_word_part_of(m.input.subrange(0, m.cursor)) && (r matches Ok(s) && s
                    == EventState::Consumed),
                None => true,
            }),
            ({
                &&& textbox_step(tb_model(&old(self).text_box), key) is None
                &&& key == old(self).completion.key_config.move_down
            }) ==> final(self).completion.selected == (match old(self).completion.selected {
                Some(i) => if i + 1 < old(self).completion.candidates@.len() {
                    Some((i + 1) as usize)
                } else {
                    Some(i)
                },
                None => None::<usize>,
            }) && (r matches Ok(s) && s == EventState::Consumed),
            ({
                &&& textbox_step(tb_model(&old(self).text_box), key) is None
                &&& key == old(self).completion.key_config.move_up
                &&& key != old(self).completion.key_config.move_down
            }) ==> final(self).completion.selected == (match old(self).completion.selected {
                Some(i) => if i > 0 {
                    Some((i - 1) as usize)
                } else {
                    Some(i)
                },
                None => None::<usize>,
            }) && (r matches Ok(s) && s == EventState::Consumed),
            ({
                &&& textbox_step(tb_model(&old(self).text_box), key) is None
                &&& key == Key::Enter
                &&& key != old(self).completion.key_config.move_down
                &&& key != old(self).completion.key_config.move_up
                &&& old(self).completion.word@.len() > 0
                &&& old(self).completion.selected matches Some(i)
            }) ==> tb_model(&final(self).text_box) == replaced_model(
                tb_model(&old(self).text_box),
                (match old(self).completion.selected {
                    Some(i) => old(self).completion.candidates@[i as int]@,
                    None => Seq::empty(),
                }),
            ) && (r matches Ok(s) && s == EventState::Consumed),
    {
        let first = self.text_box.handle_textbox_event(key);
        let consumed = match first {
            Ok(s) => s,
            Err(e) => {
                return Err(e);
            },
        };
        if consumed.is_consumed() {
            let lw = self.text_box.last_word_part();
            if let Some(last_w) = lw {
                self.completion.update(last_w);
            }
            return Ok(EventState::Consumed);
        }
        let res = self.completion.event(key, message_queue);
        match res {
            Ok(s) => {
                if s.is_consumed() {
                    return Ok(EventState::Consumed);
                }
            },
            Err(e) => {
                return Err(e);
            },
        }
        if key == Key::Enter && self.completion.is_visible() {
            let cand = self.completion.selected_candidate();
            if let Some(candidate) = cand {
                self.text_box.replace_last_word_part(candidate);
                self.completion.reset();
                return Ok(EventState::Consumed);
            }
        }
        Ok(EventState::NotConsumed)
    }
}

} // verus!
