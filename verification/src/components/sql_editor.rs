//! A SQL editor tab: a multi-line editor over a result area that shows
//! either a result grid or a "rows affected" message.

use vstd::prelude::*;
use crate::config::KeyConfig;
use crate::database::ExecuteResult;
use crate::err::UiError;
use crate::event::Key;
use crate::strutil;

verus! {

use vstd::string::StringExecFns;
use crate::app::{AppMessage, GlobalMessageQueue, PoolRequest};
use crate::components::table::{grid_inv, rows_match_headers, TableComponent};
use crate::components::tab::{Tab, TabType};
use crate::components::{CommandInfo, Component, EventState};
use crate::ui::textarea::{ta_model, textarea_inv, TextArea};

#[derive(Debug, Clone, Copy, PartialEq, Eq, Structural)]
pub enum Focus {
    Editor,
    Table,
}

/// The outcome of a write statement.
pub struct QueryResult {
    pub updated_rows: u64,
}

impl QueryResult {
    /// The one-line summary shown instead of a grid.
    pub fn result_str(&self) -> (r: String)
        ensures
            r@ == "Query OK, "@ + strutil::dec_digits(self.updated_rows as nat)
                + " row affected"@,
    {
        String::from_str("Query OK, ").concat(
            strutil::u64_to_string(self.updated_rows).as_str(),
        ).concat(" row affected")
    }
}

pub struct SqlEditorComponent {
    pub text_area: TextArea,
    pub table: TableComponent,
    pub query_result: Option<QueryResult>,
    pub key_config: KeyConfig,
    pub focus: Focus,
    pub editor_name: String,
}

pub open spec fn sql_editor_inv(t: &SqlEditorComponent) -> bool {
    &&& textarea_inv(&t.text_area)
    &&& grid_inv(&t.table)
}

impl SqlEditorComponent {
    pub fn new(key_config: KeyConfig, editor_name: Option<String>) -> (r: SqlEditorComponent)
        ensures
            sql_editor_inv(&r),
            r.focus == Focus::Editor,
            r.query_result is None,
            ta_model(&r.text_area).lines.len() == 0,
            (match editor_name {
                Some(n) => r.editor_name@ == n@,
                None => r.editor_name@ == "Sql Editor"@,
            }),
    {
        SqlEditorComponent {
            text_area: TextArea::new(key_config),
            table: TableComponent::new(key_config),
            query_result: None,
            key_config,
            focus: Focus::Editor,
            editor_name: match editor_name {
                Some(n) => n,
                None => String::from_str("Sql Editor"),
            },
        }
    }

    /// Applies what the pool returned for the submitted statement: a read
    /// result fills the grid and moves focus there; a write result shows the
    /// affected-row count.
    pub fn apply_execute_result(&mut self, result: ExecuteResult) -> (r: Result<(), UiError>)
        requires
            sql_editor_inv(old(self)),
            (result matches ExecuteResult::Read { headers, rows, .. } ==> rows_match_headers(
                rows@,
                headers@,
            )),
        ensures
            sql_editor_inv(final(self)),
            (match result {
                ExecuteResult::Read { headers, rows, .. } => final(self).table.rows == rows
                    && final(self).table.headers == headers && final(self).focus == Focus::Table
                    && final(self).query_result is None,
                ExecuteResult::Write { updated_rows } => (final(self).query_result matches Some(
                    q,
                ) && q.updated_rows == updated_rows) && final(self).table == old(self).table
                    && final(self).focus == old(self).focus,
            }),
            final(self).editor_name == old(self).editor_name,
            final(self).key_config == old(self).key_config,
            final(self).text_area == old(self).text_area,
            r is Ok,
    {
        match result {
            ExecuteResult::Read { headers, rows, database, table } => {
                self.table.update(rows, headers, database, table);
                self.focus = Focus::Table;
                self.query_result = None;
            },
            ExecuteResult::Write { updated_rows } => {
                self.query_result = Some(QueryResult { updated_rows });
            },
        }
        Ok(())
    }

    fn editor_key_event(&mut self, key: Key, msg_queue: &mut GlobalMessageQueue) -> (r: Result<
        EventState,
        UiError,
    >)
        requires
            sql_editor_inv(old(self)),
        ensures
            sql_editor_inv(final(self)),
            final(self).editor_name == old(self).editor_name,
            final(self).key_config == old(self).key_config,
            ({
                &&& key == Key::F5
                &&& !(old(self).text_area.completion.word@.len() > 0 && (key == old(self).text_area.completion.key_config.move_up || key == old(self).text_area.completion.key_config.move_down))
            }) ==> final(msg_queue).event_queue@.len() == old(msg_queue).event_queue@.len() + 1
                && (final(msg_queue).event_queue@.last() matches AppMessage::Pool(
                PoolRequest::ExecuteQuery { query },
            ) && query@ == crate::ui::textarea::join_lines(
                crate::ui::textarea::ta_model(&old(self).text_area).lines,
            )) && (r matches Ok(s) && s == EventState::Consumed),
            ({
                &&& key == Key::Esc
                &&& !(old(self).text_area.completion.word@.len() > 0 && (key == old(self).text_area.completion.key_config.move_up || key == old(self).text_area.completion.key_config.move_down))
            }) ==> final(self).focus == Focus::Table && (r matches Ok(s) && s
                == EventState::Consumed),
            ({
                &&& !(key == Key::Enter || key == Key::Tab)
                &&& !(old(self).text_area.completion.word@.len() > 0 && (key == old(self).text_area.completion.key_config.move_up || key == old(self).text_area.completion.key_config.move_down))
            }) ==> (match crate::ui::textarea::ta_key(
                crate::ui::textarea::ta_model(&old(self).text_area),
                key,
            ) {
                Some(m) => crate::ui::textarea::ta_model(&final(self).text_area) == m && (
                r matches Ok(s) && s == EventState::Consumed),
                None => true,
            }),
    {
        let res = self.text_area.event(key, msg_queue);
        match res {
            Ok(s) => {
                if s.is_consumed() {
                    return Ok(EventState::Consumed);
                }
            },
            Err(e) => {
                return Err(e);
            },
        }
        match key {
            Key::Esc => {
                self.focus = Focus::Table;
                Ok(EventState::Consumed)
            },
            Key::F5 => {
                let query = self.text_area.get_text();
                msg_queue.push(AppMessage::Pool(PoolRequest::ExecuteQuery { query }));
                Ok(EventState::Consumed)
            },
            _ => Ok(EventState::NotConsumed),
        }
    }
}

impl Tab for SqlEditorComponent {
    fn tab_type(&self) -> (r: TabType)
        ensures
            r == TabType::Sql,
    {
        TabType::Sql
    }

    fn tab_name(&self) -> (r: String)
        ensures
            r@ == self.editor_name@,
    {
        self.editor_name.clone()
    }

    fn update_name(&mut self, name: String)
        ensures
            *final(self) == (SqlEditorComponent { editor_name: name, ..*old(self) }),
    {
        self.editor_name = name;
    }
}

impl Component for SqlEditorComponent {
    open spec fn inv(&self) -> bool {
        sql_editor_inv(self)
    }

    fn commands(&self, _out: &mut Vec<CommandInfo>) {
    }

    /// With the editor focused, keys edit the buffer, `Esc` moves to the
    /// result area, and `F5` submits the whole buffer for execution.  With
    /// the result focused, the configured up key returns to the editor and
    /// other keys scroll the grid.
    fn event(&mut self, key: Key, message_queue: &mut GlobalMessageQueue) -> (r: Result<
        EventState,
        UiError,
    >)
        ensures
            final(self).editor_name == old(self).editor_name,
            final(self).key_config == old(self).key_config,
            old(self).focus == Focus::Table && key == old(self).key_config.focus_above ==> final(self).focus == Focus::Editor && (r matches Ok(s) && s == EventState::Consumed),
            ({
                &&& old(self).focus == Focus::Editor
                &&& key == Key::F5
                &&& !(old(self).text_area.completion.word@.len() > 0 && (key == old(self).text_area.completion.key_config.move_up || key == old(self).text_area.completion.key_config.move_down))
            }) ==> final(message_queue).event_queue@.len() == old(message_queue).event_queue@.len() + 1 && (final(message_queue).event_queue@.last() matches AppMessage::Pool(PoolRequest::ExecuteQuery { query })
                && query@ == crate::ui::textarea::join_lines(
                crate::ui::textarea::ta_model(&old(self).text_area).lines,
            )) && (r matches Ok(s) && s == EventState::Consumed),
            ({
                &&& old(self).focus == Focus::Editor
                &&& key == Key::Esc
                &&& !(old(self).text_area.completion.word@.len() > 0 && (key == old(self).text_area.completion.key_config.move_up || key == old(self).text_area.completion.key_config.move_down))
            }) ==> final(self).focus == Focus::Table && (r matches Ok(s) && s
                == EventState::Consumed),
            ({
                &&& old(self).focus == Focus::Editor
                &&& !(key == Key::Enter || key == Key::Tab)
                &&& !(old(self).text_area.completion.word@.len() > 0 && (key == old(self).text_area.completion.key_config.move_up || key == old(self).text_area.completion.key_config.move_down))
            }) ==> (match crate::ui::textarea::ta_key(
                crate::ui::textarea::ta_model(&old(self).text_area),
                key,
            ) {
                Some(m) => crate::ui::textarea::ta_model(&final(self).text_area) == m && (
                r matches Ok(s) && s == EventState::Consumed),
                None => true,
            }),
    {
        match self.focus {
            Focus::Editor => self.editor_key_event(key, message_queue),
            Focus::Table => {
                if key == self.key_config.focus_above {
                    self.focus = Focus::Editor;
                    return Ok(EventState::Consumed);
                }
                self.table.event(key, message_queue)
            },
        }
    }

    fn reset(&mut self)
        ensures
            crate::ui::textarea::ta_model(&final(self).text_area).lines.len() == 0,
            final(self).table.rows@.len() == 0,
            final(self).query_result is None,
            final(self).focus == Focus::Editor,
            final(self).editor_name == old(self).editor_name,
            final(self).key_config == old(self).key_config,
    {
        self.text_area.reset();
        self.table.reset();
        self.query_result = None;
        self.focus = Focus::Editor;
    }
}

} // verus!
