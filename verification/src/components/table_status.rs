//! The status line under the grid: row count, column count, and the table's
//! storage engine.

use vstd::prelude::*;
use crate::dbtree::{Table, view_opt};
use crate::err::UiError;
use crate::event::Key;
use crate::strutil;

verus! {

use vstd::string::StringExecFns;
use crate::app::GlobalMessageQueue;
use crate::components::{CommandInfo, Component, EventState};

pub struct TableStatusComponent {
    pub column_count: Option<usize>,
    pub row_count: Option<usize>,
    pub table: Option<Table>,
}

/// How a count is rendered: its decimal digits, or a dash when absent.
pub open spec fn count_text(c: Option<usize>) -> Seq<char> {
    match c {
        Some(n) => strutil::dec_digits(n as nat),
        None => "-"@,
    }
}

/// How the engine is rendered: its name, or a dash when absent.
pub open spec fn engine_text(t: Option<crate::dbtree::TableV>) -> Seq<char> {
    match t {
        Some(tv) => match tv.engine {
            Some(e) => e,
            None => "-"@,
        },
        None => "-"@,
    }
}

impl TableStatusComponent {
    pub fn default() -> (r: TableStatusComponent)
        ensures
            r.row_count is None,
            r.column_count is None,
            r.table is None,
    {
        TableStatusComponent { column_count: None, row_count: None, table: None }
    }

    pub fn new(row_count: Option<usize>, column_count: Option<usize>, table: Option<Table>) -> (r:
        TableStatusComponent)
        ensures
            r.row_count == row_count,
            r.column_count == column_count,
            view_opt_table(r.table) == view_opt_table(table),
    {
        TableStatusComponent { row_count, column_count, table }
    }

    /// The three status fragments, in display order.
    pub fn status_texts(&self) -> (r: Vec<String>)
        ensures
            r@.len() == 3,
            r@[0]@ == "rows: "@ + count_text(self.row_count) + ", "@,
            r@[1]@ == "columns: "@ + count_text(self.column_count) + ", "@,
            r@[2]@ == "engine: "@ + engine_text(view_opt_table(self.table)),
    {
        let rows_text = String::from_str("rows: ").concat(
            count_string(self.row_count).as_str(),
        ).concat(", ");
        let cols_text = String::from_str("columns: ").concat(
            count_string(self.column_count).as_str(),
        ).concat(", ");
        let engine = match &self.table {
            Some(t) => match &t.engine {
                Some(e) => e.clone(),
                None => String::from_str("-"),
            },
            None => String::from_str("-"),
        };
        let engine_line = String::from_str("engine: ").concat(engine.as_str());
        let mut out: Vec<String> = Vec::new();
        out.push(rows_text);
        out.push(cols_text);
        out.push(engine_line);
        out
    }
}

pub open spec fn view_opt_table(t: Option<Table>) -> Option<crate::dbtree::TableV> {
    match t {
        Some(tv) => Some(tv@),
        None => None,
    }
}

fn count_string(c: Option<usize>) -> (r: String)
    ensures
        r@ == count_text(c),
{
    match c {
        Some(n) => strutil::u64_to_string(n as u64),
        None => String::from_str("-"),
    }
}

impl Component for TableStatusComponent {
    open spec fn inv(&self) -> bool {
        true
    }

    fn commands(&self, _out: &mut Vec<CommandInfo>) {
    }

    /// The status line is passive.
    fn event(&mut self, _key: Key, _message_queue: &mut GlobalMessageQueue) -> (r: Result<
        EventState,
        UiError,
    >)
        ensures
            *final(self) == *old(self),
            r matches Ok(s) && s == EventState::NotConsumed,
    {
        Ok(EventState::NotConsumed)
    }
}

} // verus!
