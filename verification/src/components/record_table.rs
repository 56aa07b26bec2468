//! The records tab: a filter input with pool-backed completion over a
//! paginated grid.  Fetches are requested through the message queue and
//! their outcome is applied through `apply_records` / `apply_next_page`.

use vstd::prelude::*;
use crate::config::KeyConfig;
use crate::dbtree::{Database, Table};
use crate::err::UiError;
use crate::event::Key;

verus! {

use vstd::string::StringExecFns;
use crate::app::{AppMessage, GlobalMessageQueue, PoolRequest};
use crate::components::table::{grid_inv, rows_match_headers, TableComponent};
use crate::components::tab::{Tab, TabType};
use crate::components::{CommandInfo, Component, EventState};
use crate::ui::textbox::{tb_model, textbox_inv, TextBox};

#[derive(Debug, Clone, Copy, PartialEq, Eq, Structural)]
pub enum Focus {
    Table,
    Filter,
}

pub struct RecordTableComponent {
    pub filter: TextBox,
    pub table: TableComponent,
    pub focus: Focus,
    pub key_config: KeyConfig,
    pub database: Option<Database>,
    pub dtable: Option<Table>,
}

pub open spec fn record_table_inv(t: &RecordTableComponent) -> bool {
    &&& textbox_inv(&t.filter)
    &&& grid_inv(&t.table)
    &&& t.table.key_config == t.key_config
}

impl RecordTableComponent {
    pub fn new(key_config: KeyConfig) -> (r: RecordTableComponent)
        ensures
            record_table_inv(&r),
            r.focus == Focus::Table,
            r.database is None,
            r.dtable is None,
            r.table.rows@.len() == 0,
            tb_model(&r.filter).input.len() == 0,
    {
        RecordTableComponent {
            filter: TextBox::default().with_placeholder(
                String::from_str("Enter SQL expression to filter records"),
            ).with_completion(key_config),
            table: TableComponent::new(key_config),
            focus: Focus::Table,
            key_config,
            database: None,
            dtable: None,
        }
    }

    /// Reacts to a table selection: clears the view and asks for the first
    /// page, unfiltered.
    pub fn on_table_selected(
        &mut self,
        database: &Database,
        table: &Table,
        requests: &mut Vec<PoolRequest>,
    )
        requires
            record_table_inv(old(self)),
        ensures
            record_table_inv(final(self)),
            final(self).database matches Some(d) && d@ == database@,
            final(self).dtable matches Some(t) && t@ == table@,
            final(self).table.rows@.len() == 0,
            tb_model(&final(self).filter).input.len() == 0,
            (final(self).filter.label matches Some(l) && l@ == table@.name + " "@),
            final(requests)@.len() == old(requests)@.len() + 1,
            final(requests)@.drop_last() == old(requests)@,
            (final(requests)@.last() matches PoolRequest::FetchRecords {
                database: d,
                table: t,
                page,
                filter,
            } && d@ == database@ && t@ == table@ && page == 0 && filter is None),
    {
        self.table.reset();
        self.filter.reset();
        self.filter.set_label(table.name.clone());
        self.database = Some(database.clone());
        self.dtable = Some(table.clone());
        requests.push(
            PoolRequest::FetchRecords {
                database: database.clone(),
                table: table.clone(),
                page: 0,
                filter: None,
            },
        );
    }

    /// Applies a freshly fetched first page.
    pub fn apply_records(
        &mut self,
        headers: Vec<String>,
        rows: Vec<Vec<String>>,
        database: Database,
        table: Table,
    )
        requires
            record_table_inv(old(self)),
            rows_match_headers(rows@, headers@),
        ensures
            record_table_inv(final(self)),
            final(self).table.rows == rows,
            final(self).table.headers == headers,
            final(self).table.selected_row == 0,
            !final(self).table.eod,
    {
        self.table.update(rows, headers, database, table);
    }

    /// Applies a follow-up page: an empty page marks end-of-data, a
    /// non-empty one extends the grid.
    pub fn apply_next_page(&mut self, rows: Vec<Vec<String>>)
        requires
            record_table_inv(old(self)),
            rows_match_headers(rows@, old(self).table.headers@),
        ensures
            record_table_inv(final(self)),
            rows@.len() == 0 ==> final(self).table.eod && final(self).table.rows == old(self).table.rows,
            rows@.len() > 0 ==> final(self).table.rows@ == old(self).table.rows@ + rows@ && final(self).table.eod == old(self).table.eod,
    {
        self.table.add_page(rows);
    }

    /// Clears the grid, the filter, the table binding, and the focus.
    pub fn reset(&mut self)
        requires
            record_table_inv(old(self)),
        ensures
            record_table_inv(final(self)),
            final(self).table.rows@.len() == 0,
            final(self).table.headers@.len() == 0,
            !final(self).table.eod,
            tb_model(&final(self).filter).input.len() == 0,
            final(self).database is None,
            final(self).dtable is None,
            final(self).focus == Focus::Table,
            final(self).key_config == old(self).key_config,
    {
        self.table.reset();
        self.filter.reset();
        self.database = None;
        self.dtable = None;
        self.focus = Focus::Table;
    }
}

impl Tab for RecordTableComponent {
    fn tab_type(&self) -> (r: TabType)
        ensures
            r == TabType::Records,
    {
        TabType::Records
    }

    fn tab_name(&self) -> (r: String)
        ensures
            r@ == "Records"@,
    {
        String::from_str("Records")
    }
}

impl Component for RecordTableComponent {
    open spec fn inv(&self) -> bool {
        record_table_inv(self)
    }

    fn commands(&self, _out: &mut Vec<CommandInfo>) {
    }

    /// With the grid focused, the filter key moves focus to the filter and
    /// other keys scroll the grid; scrolling onto the last row of a full
    /// page requests the next one.  With the filter focused, `Enter`
    /// re-fetches the first page under the new predicate and `Esc` returns
    /// to the grid.
    fn event(&mut self, key: Key, message_queue: &mut GlobalMessageQueue) -> (r: Result<
        EventState,
        UiError,
    >)
        ensures
            old(self).focus == Focus::Table && key == old(self).key_config.filter ==> final(self).focus == Focus::Filter && (r matches Ok(s) && s == EventState::Consumed),
            ({
                &&& old(self).focus == Focus::Filter
                &&& key == Key::Enter
                &&& (old(self).filter.completion matches Some(c) ==> (c.word@.len() == 0 && key
                    != c.key_config.move_down && key != c.key_config.move_up))
                &&& old(self).database matches Some(db)
                &&& old(self).dtable matches Some(t)
            }) ==> final(message_queue).event_queue@.len() == old(message_queue).event_queue@.len() + 1 && (final(message_queue).event_queue@.last() matches AppMessage::Pool(PoolRequest::FetchRecords {
                database,
                table,
                page,
                filter,
            }) && (old(self).database matches Some(db) && database@ == db@) && (old(self).dtable matches Some(t) && table@ == t@) && page == 0 && (match filter {
                Some(f) => old(self).filter.input@.len() > 0 && f@ == old(self).filter.input@,
                None => old(self).filter.input@.len() == 0,
            })) && final(self).focus == Focus::Table && (r matches Ok(s) && s
                == EventState::Consumed),
            ({
                &&& old(self).focus == Focus::Table
                &&& key == old(self).key_config.scroll_down
                &&& key != old(self).key_config.filter
                &&& old(self).table.rows@.len() > 0
                &&& old(self).table.rows@.len() <= u16::MAX
                &&& !old(self).table.eod
                &&& old(self).table.selected_row + 2 >= old(self).table.rows@.len()
                &&& old(self).database matches Some(db)
                &&& old(self).dtable matches Some(t)
            }) ==> final(message_queue).event_queue@.len() == old(message_queue).event_queue@.len() + 1 && (final(message_queue).event_queue@.last() matches AppMessage::Pool(PoolRequest::FetchRecords {
                database,
                table,
                page,
                filter,
            }) && (old(self).database matches Some(db) && database@ == db@) && (old(self).dtable matches Some(t) && table@ == t@) && page == old(self).table.rows@.len() && (
            match filter {
                Some(f) => old(self).filter.input@.len() > 0 && f@ == old(self).filter.input@,
                None => old(self).filter.input@.len() == 0,
            })) && (r matches Ok(s) && s == EventState::Consumed),
            old(self).focus == Focus::Filter && key == Key::Esc && (old(self).filter.completion matches Some(c) ==> (c.word@.len() == 0 && key
                != c.key_config.move_up && key != c.key_config.move_down)) ==> final(self).focus
                == Focus::Table,
    {
        match self.focus {
            Focus::Table => {
                if key == self.key_config.filter {
                    self.focus = Focus::Filter;
                    return Ok(EventState::Consumed);
                }
                let res = self.table.event(key, message_queue);
                let state = match res {
                    Ok(s) => s,
                    Err(e) => {
                        return Err(e);
                    },
                };
                if state.is_consumed() && self.table.wants_next_page() {
                    if self.table.rows.len() <= u16::MAX as usize {
                        match (&self.database, &self.dtable) {
                            (Some(db), Some(t)) => {
                                let text = self.filter.get_text();
                                let filter_arg = if text.as_str().unicode_len() == 0 {
                                    None
                                } else {
                                    Some(text)
                                };
                                message_queue.push(
                                    AppMessage::Pool(
                                        PoolRequest::FetchRecords {
                                            database: db.clone(),
                                            table: t.clone(),
                                            page: self.table.rows.len() as u16,
                                            filter: filter_arg,
                                        },
                                    ),
                                );
                            },
                            _ => {},
                        }
                    }
                }
                Ok(state)
            },
            Focus::Filter => {
                let res = self.filter.event(key, message_queue);
                let state = match res {
                    Ok(s) => s,
                    Err(e) => {
                        return Err(e);
                    },
                };
                if state.is_consumed() {
                    return Ok(EventState::Consumed);
                }
                if key == Key::Enter {
                    match (&self.database, &self.dtable) {
                        (Some(db), Some(t)) => {
                            let text = self.filter.get_text();
                            let filter_arg = if text.as_str().unicode_len() == 0 {
                                None
                            } else {
                                Some(text)
                            };
                            message_queue.push(
                                AppMessage::Pool(
                                    PoolRequest::FetchRecords {
                                        database: db.clone(),
                                        table: t.clone(),
                                        page: 0,
                                        filter: filter_arg,
                                    },
                                ),
                            );
                        },
                        _ => {},
                    }
                    self.focus = Focus::Table;
                    return Ok(EventState::Consumed);
                }
                if key == Key::Esc {
                    self.focus = Focus::Table;
                    return Ok(EventState::Consumed);
                }
                Ok(EventState::NotConsumed)
            },
        }
    }

    fn reset(&mut self)
        ensures
            final(self).table.rows@.len() == 0,
            tb_model(&final(self).filter).input.len() == 0,
            final(self).database is None,
            final(self).dtable is None,
            final(self).focus == Focus::Table,
            final(self).key_config == old(self).key_config,
    {
        self.table.reset();
        self.filter.reset();
        self.database = None;
        self.dtable = None;
        self.focus = Focus::Table;
    }
}

/// The paging state: rows fetched so far, and whether a fetch has come
/// back empty.
pub ghost struct PaginationM {
    pub fetched: int,
    pub eod: bool,
}

/// How many rows one fetch at `offset` returns from a table of `n` rows:
/// a full page of 200 until fewer remain, then the rest, then none.
pub open spec fn page_size(n: int, offset: int) -> int {
    if offset >= n {
        0
    } else if n - offset >= 200 {
        200
    } else {
        n - offset
    }
}

/// One fetch-and-apply cycle, as `apply_next_page` performs it: an empty
/// page sets end-of-data, a non-empty one extends the grid; after
/// end-of-data nothing is fetched.
pub open spec fn paginate_step(m: PaginationM, n: int) -> PaginationM {
    if m.eod {
        m
    } else {
        let s = page_size(n, m.fetched);
        if s == 0 {
            PaginationM { fetched: m.fetched, eod: true }
        } else {
            PaginationM { fetched: m.fetched + s, eod: false }
        }
    }
}

pub open spec fn paginate_iter(m: PaginationM, n: int, steps: nat) -> PaginationM
    decreases steps,
{
    if steps == 0 {
        m
    } else {
        paginate_step(paginate_iter(m, n, (steps - 1) as nat), n)
    }
}

proof fn lemma_pagination_full_pages(k: nat, j: nat)
    requires
        j <= k,
        200 * k <= 0x7fff_ffff_ffff_ffff,
    ensures
        paginate_iter(PaginationM { fetched: 0, eod: false }, (200 * k) as int, j) == (PaginationM {
            fetched: (200 * j) as int,
            eod: false,
        }),
    decreases j,
{
    if j > 0 {
        lemma_pagination_full_pages(k, (j - 1) as nat);
    }
}

/// The pagination law: over a table of exactly `200 * k` rows with no
/// filter, the first `k` fetches each return a full page, and the
/// `(k + 1)`-th returns no rows and only then sets end-of-data.
pub proof fn lemma_pagination_run(k: nat)
    requires
        200 * k <= 0x7fff_ffff_ffff_ffff,
    ensures
        forall|j: nat|
            j <= k ==> #[trigger] paginate_iter(
                PaginationM { fetched: 0, eod: false },
                (200 * k) as int,
                j,
            ) == (PaginationM { fetched: (200 * j) as int, eod: false }),
        paginate_iter(PaginationM { fetched: 0, eod: false }, (200 * k) as int, (k + 1) as nat) == (
        PaginationM { fetched: (200 * k) as int, eod: true }),
{
    assert forall|j: nat| j <= k implies #[trigger] paginate_iter(
        PaginationM { fetched: 0, eod: false },
        (200 * k) as int,
        j,
    ) == (PaginationM { fetched: (200 * j) as int, eod: false }) by {
        lemma_pagination_full_pages(k, j);
    }
    lemma_pagination_full_pages(k, k);
}

} // verus!
