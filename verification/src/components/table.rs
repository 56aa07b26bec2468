//! A read-only grid with a selected cell: the body of the records view, the
//! properties sub-tabs, and the editor's result table.

use vstd::prelude::*;
use crate::config::KeyConfig;
use crate::dbtree::{Database, Table};
use crate::err::UiError;
use crate::event::Key;

verus! {

use crate::app::GlobalMessageQueue;
use crate::components::{CommandInfo, Component, EventState};

pub struct TableComponent {
    pub key_config: KeyConfig,
    pub headers: Vec<String>,
    pub rows: Vec<Vec<String>>,
    pub selected_row: usize,
    pub selected_column: usize,
    /// Set once a page fetch came back empty; no further fetches happen.
    pub eod: bool,
    pub database: Option<Database>,
    pub table: Option<Table>,
}

/// Every data row is as wide as the header row.
pub open spec fn rows_match_headers(rows: Seq<Vec<String>>, headers: Seq<String>) -> bool {
    forall|i: int| 0 <= i < rows.len() ==> (#[trigger] rows[i])@.len() == headers.len()
}

/// The grid is rectangular and the selected cell exists (or the grid is
/// empty and the selection rests at the origin).
pub open spec fn grid_inv(t: &TableComponent) -> bool {
    &&& rows_match_headers(t.rows@, t.headers@)
    &&& if t.rows@.len() == 0 {
        t.selected_row == 0
    } else {
        t.selected_row < t.rows@.len()
    }
    &&& if t.headers@.len() == 0 {
        t.selected_column == 0
    } else {
        t.selected_column < t.headers@.len()
    }
}

/// Rectangularity check callers run before handing rows to `update`.
pub fn rows_rectangular(rows: &Vec<Vec<String>>, headers: &Vec<String>) -> (r: bool)
    ensures
        r == rows_match_headers(rows@, headers@),
{
    let mut i: usize = 0;
    while i < rows.len()
        invariant
            i <= rows@.len(),
            forall|k: int| 0 <= k < i ==> (#[trigger] rows@[k])@.len() == headers@.len(),
        decreases rows@.len() - i,
    {
        if rows[i].len() != headers.len() {
            return false;
        }
        i = i + 1;
    }
    true
}

impl TableComponent {
    pub fn new(key_config: KeyConfig) -> (r: TableComponent)
        ensures
            grid_inv(&r),
            r.key_config == key_config,
            r.headers@.len() == 0,
            r.rows@.len() == 0,
            r.selected_row == 0,
            r.selected_column == 0,
            !r.eod,
            r.database is None,
            r.table is None,
    {
        TableComponent {
            key_config,
            headers: Vec::new(),
            rows: Vec::new(),
            selected_row: 0,
            selected_column: 0,
            eod: false,
            database: None,
            table: None,
        }
    }

    /// Replaces the grid contents; the selection returns to the origin and
    /// end-of-data is cleared.
    pub fn update(
        &mut self,
        rows: Vec<Vec<String>>,
        headers: Vec<String>,
        database: Database,
        table: Table,
    )
        requires
            rows_match_headers(rows@, headers@),
        ensures
            grid_inv(final(self)),
            final(self).rows == rows,
            final(self).headers == headers,
            final(self).selected_row == 0,
            final(self).selected_column == 0,
            !final(self).eod,
            final(self).database matches Some(d) && d@ == database@,
            final(self).table matches Some(t) && t@ == table@,
            final(self).key_config == old(self).key_config,
    {
        self.headers = headers;
        self.rows = rows;
        self.selected_row = 0;
        self.selected_column = 0;
        self.eod = false;
        self.database = Some(database);
        self.table = Some(table);
    }

    /// Appends one fetched page.  An empty page only marks end-of-data.
    pub fn add_page(&mut self, new_rows: Vec<Vec<String>>)
        requires
            grid_inv(old(self)),
            rows_match_headers(new_rows@, old(self).headers@),
        ensures
            grid_inv(final(self)),
            new_rows@.len() == 0 ==> final(self).eod && final(self).rows == old(self).rows,
            new_rows@.len() > 0 ==> final(self).rows@ == old(self).rows@ + new_rows@ && final(self).eod == old(self).eod,
            final(self).headers == old(self).headers,
            final(self).selected_row == old(self).selected_row,
            final(self).selected_column == old(self).selected_column,
            final(self).key_config == old(self).key_config,
            final(self).database == old(self).database,
            final(self).table == old(self).table,
    {
        if new_rows.len() == 0 {
            self.eod = true;
            return;
        }
        let mut incoming = new_rows;
        self.rows.append(&mut incoming);
    }

    /// Marks the table as fully fetched.
    pub fn end(&mut self)
        ensures
            *final(self) == (TableComponent { eod: true, ..*old(self) }),
    {
        self.eod = true;
    }

    /// Whether scrolling past the last row should fetch another page: the
    /// cursor rests on the last row and end-of-data has not been seen.
    pub fn wants_next_page(&self) -> (r: bool)
        requires
            grid_inv(self),
        ensures
            r == (!self.eod && self.rows@.len() > 0 && self.selected_row + 1 == self.rows@.len()),
    {
        !self.eod && self.rows.len() > 0 && self.selected_row + 1 == self.rows.len()
    }

    /// The text of the selected cell, if the grid has one.
    pub fn selected_cells(&self) -> (r: Option<String>)
        requires
            grid_inv(self),
        ensures
            match r {
                Some(s) => self.rows@.len() > 0 && self.headers@.len() > 0 && s@
                    == self.rows@[self.selected_row as int]@[self.selected_column as int]@,
                None => self.rows@.len() == 0 || self.headers@.len() == 0,
            },
    {
        if self.rows.len() == 0 || self.headers.len() == 0 {
            return None;
        }
        Some(self.rows[self.selected_row][self.selected_column].clone())
    }

    /// Clears the grid.
    pub fn reset(&mut self)
        ensures
            grid_inv(final(self)),
            final(self).headers@.len() == 0,
            final(self).rows@.len() == 0,
            final(self).selected_row == 0,
            final(self).selected_column == 0,
            !final(self).eod,
            final(self).database is None,
            final(self).table is None,
            final(self).key_config == old(self).key_config,
    {
        self.headers = Vec::new();
        self.rows = Vec::new();
        self.selected_row = 0;
        self.selected_column = 0;
        self.eod = false;
        self.database = None;
        self.table = None;
    }
}

impl Component for TableComponent {
    open spec fn inv(&self) -> bool {
        grid_inv(self)
    }

    fn commands(&self, _out: &mut Vec<CommandInfo>) {
    }

    /// Arrow and scroll keys move the selected cell, clamped to the grid.
    fn event(&mut self, key: Key, _message_queue: &mut GlobalMessageQueue) -> (r: Result<
        EventState,
        UiError,
    >)
        ensures
            r is Ok,
            final(_message_queue).event_queue == old(_message_queue).event_queue,
            final(self).rows == old(self).rows,
            final(self).headers == old(self).headers,
            final(self).eod == old(self).eod,
            final(self).database == old(self).database,
            final(self).table == old(self).table,
            final(self).key_config == old(self).key_config,
            key == old(self).key_config.scroll_down && old(self).rows@.len() > 0 ==> final(self).selected_row == if old(self).selected_row + 1 < old(self).rows@.len() {
                old(self).selected_row + 1
            } else {
                old(self).selected_row as int
            },
            key == old(self).key_config.scroll_up && key != old(self).key_config.scroll_down
                ==> final(self).selected_row == if old(self).selected_row > 0 {
                old(self).selected_row - 1
            } else {
                0
            },
            ({
                &&& key == old(self).key_config.scroll_down_multiple_lines
                &&& key != old(self).key_config.scroll_down
                &&& key != old(self).key_config.scroll_up
                &&& old(self).rows@.len() > 0
            }) ==> final(self).selected_row == if old(self).rows@.len() - 1 - old(self).selected_row >= 10 {
                old(self).selected_row + 10
            } else {
                old(self).rows@.len() - 1
            },
            ({
                &&& key == old(self).key_config.scroll_up_multiple_lines
                &&& key != old(self).key_config.scroll_down
                &&& key != old(self).key_config.scroll_up
                &&& key != old(self).key_config.scroll_down_multiple_lines
            }) ==> final(self).selected_row == if old(self).selected_row >= 10 {
                old(self).selected_row - 10
            } else {
                0
            },
            ({
                &&& key == old(self).key_config.scroll_to_top
                &&& key != old(self).key_config.scroll_down
                &&& key != old(self).key_config.scroll_up
                &&& key != old(self).key_config.scroll_down_multiple_lines
                &&& key != old(self).key_config.scroll_up_multiple_lines
            }) ==> final(self).selected_row == 0,
            ({
                &&& key == old(self).key_config.scroll_to_bottom
                &&& key != old(self).key_config.scroll_down
                &&& key != old(self).key_config.scroll_up
                &&& key != old(self).key_config.scroll_down_multiple_lines
                &&& key != old(self).key_config.scroll_up_multiple_lines
                &&& key != old(self).key_config.scroll_to_top
                &&& old(self).rows@.len() > 0
            }) ==> final(self).selected_row == old(self).rows@.len() - 1,
            ({
                &&& key == old(self).key_config.scroll_left
                &&& key != old(self).key_config.scroll_down
                &&& key != old(self).key_config.scroll_up
                &&& key != old(self).key_config.scroll_down_multiple_lines
                &&& key != old(self).key_config.scroll_up_multiple_lines
                &&& key != old(self).key_config.scroll_to_top
                &&& key != old(self).key_config.scroll_to_bottom
            }) ==> final(self).selected_column == if old(self).selected_column > 0 {
                old(self).selected_column - 1
            } else {
                0
            },
            ({
                &&& key == old(self).key_config.scroll_right
                &&& key != old(self).key_config.scroll_down
                &&& key != old(self).key_config.scroll_up
                &&& key != old(self).key_config.scroll_down_multiple_lines
                &&& key != old(self).key_config.scroll_up_multiple_lines
                &&& key != old(self).key_config.scroll_to_top
                &&& key != old(self).key_config.scroll_to_bottom
                &&& key != old(self).key_config.scroll_left
                &&& old(self).headers@.len() > 0
            }) ==> final(self).selected_column == if old(self).selected_column + 1 < old(self).headers@.len() {
                old(self).selected_column + 1
            } else {
                old(self).selected_column as int
            },
            (r matches Ok(s) && s == (if key == old(self).key_config.scroll_down || key == old(self).key_config.scroll_up || key == old(self).key_config.scroll_down_multiple_lines
                || key == old(self).key_config.scroll_up_multiple_lines || key == old(self).key_config.scroll_to_top || key == old(self).key_config.scroll_to_bottom || key
                == old(self).key_config.scroll_left || key == old(self).key_config.scroll_right {
                EventState::Consumed
            } else {
                EventState::NotConsumed
            })),
            (key != old(self).key_config.scroll_down && key != old(self).key_config.scroll_up
                && key != old(self).key_config.scroll_down_multiple_lines && key != old(self).key_config.scroll_up_multiple_lines && key != old(self).key_config.scroll_to_top
                && key != old(self).key_config.scroll_to_bottom && key != old(self).key_config.scroll_left && key != old(self).key_config.scroll_right) ==> *final(self) == *old(self),
    {
        if key == self.key_config.scroll_down {
            if self.rows.len() > 0 && self.selected_row + 1 < self.rows.len() {
                self.selected_row = self.selected_row + 1;
            }
            return Ok(EventState::Consumed);
        }
        if key == self.key_config.scroll_up {
            if self.selected_row > 0 {
                self.selected_row = self.selected_row - 1;
            }
            return Ok(EventState::Consumed);
        }
        if key == self.key_config.scroll_down_multiple_lines {
            let n = self.rows.len();
            if n > 0 {
                if n - 1 - self.selected_row >= 10 {
                    self.selected_row = self.selected_row + 10;
                } else {
                    self.selected_row = n - 1;
                }
            }
            return Ok(EventState::Consumed);
        }
        if key == self.key_config.scroll_up_multiple_lines {
            if self.selected_row >= 10 {
                self.selected_row = self.selected_row - 10;
            } else {
                self.selected_row = 0;
            }
            return Ok(EventState::Consumed);
        }
        if key == self.key_config.scroll_to_top {
            self.selected_row = 0;
            return Ok(EventState::Consumed);
        }
        if key == self.key_config.scroll_to_bottom {
            let n = self.rows.len();
            if n > 0 {
                self.selected_row = n - 1;
            }
            return Ok(EventState::Consumed);
        }
        if key == self.key_config.scroll_left {
            if self.selected_column > 0 {
                self.selected_column = self.selected_column - 1;
            }
            return Ok(EventState::Consumed);
        }
        if key == self.key_config.scroll_right {
            let n = self.headers.len();
            if n > 0 && self.selected_column + 1 < n {
                self.selected_column = self.selected_column + 1;
            }
            return Ok(EventState::Consumed);
        }
        Ok(EventState::NotConsumed)
    }

    fn reset(&mut self)
        ensures
            final(self).headers@.len() == 0,
            final(self).rows@.len() == 0,
            final(self).selected_row == 0,
            final(self).selected_column == 0,
            !final(self).eod,
            final(self).database is None,
            final(self).table is None,
            final(self).key_config == old(self).key_config,
    {
        self.headers = Vec::new();
        self.rows = Vec::new();
        self.selected_row = 0;
        self.selected_column = 0;
        self.eod = false;
        self.database = None;
        self.table = None;
    }
}

} // verus!
