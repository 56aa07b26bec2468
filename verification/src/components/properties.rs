//! The properties tab: columns, constraints, foreign keys and indexes of
//! the selected table, one read-only grid per sub-tab.

use vstd::prelude::*;
use crate::config::KeyConfig;
use crate::dbtree::{Database, Table};
use crate::err::UiError;
use crate::event::Key;

verus! {

use vstd::string::StringExecFns;
use crate::app::{GlobalMessageQueue, PoolRequest};
use crate::components::table::{grid_inv, rows_match_headers, TableComponent};
use crate::components::tab::{Tab, TabType};
use crate::components::{CommandInfo, Component, EventState};

#[derive(Debug, Clone, Copy, PartialEq, Eq, Structural)]
pub enum Focus {
    Column,
    Constraint,
    ForeignKey,
    Index,
}

pub struct PropertiesComponent {
    pub column_table: TableComponent,
    pub constraint_table: TableComponent,
    pub foreign_key_table: TableComponent,
    pub index_table: TableComponent,
    pub focus: Focus,
    pub key_config: KeyConfig,
}

pub open spec fn properties_inv(t: &PropertiesComponent) -> bool {
    &&& grid_inv(&t.column_table)
    &&& grid_inv(&t.constraint_table)
    &&& grid_inv(&t.foreign_key_table)
    &&& grid_inv(&t.index_table)
}

impl PropertiesComponent {
    pub fn new(key_config: KeyConfig) -> (r: PropertiesComponent)
        ensures
            properties_inv(&r),
            r.focus == Focus::Column,
            r.column_table.rows@.len() == 0,
            r.constraint_table.rows@.len() == 0,
            r.foreign_key_table.rows@.len() == 0,
            r.index_table.rows@.len() == 0,
    {
        PropertiesComponent {
            column_table: TableComponent::new(key_config),
            constraint_table: TableComponent::new(key_config),
            foreign_key_table: TableComponent::new(key_config),
            index_table: TableComponent::new(key_config),
            focus: Focus::Column,
            key_config,
        }
    }

    /// The grid the focused sub-tab shows.
    pub fn focused_component(&self) -> (r: &TableComponent)
        ensures
            *r == (match self.focus {
                Focus::Column => self.column_table,
                Focus::Constraint => self.constraint_table,
                Focus::ForeignKey => self.foreign_key_table,
                Focus::Index => self.index_table,
            }),
    {
        match self.focus {
            Focus::Column => &self.column_table,
            Focus::Constraint => &self.constraint_table,
            Focus::ForeignKey => &self.foreign_key_table,
            Focus::Index => &self.index_table,
        }
    }

    /// Reacts to a table selection: clears all four grids and asks for the
    /// four collections in one request.
    pub fn on_table_selected(
        &mut self,
        database: &Database,
        table: &Table,
        requests: &mut Vec<PoolRequest>,
    )
        requires
            properties_inv(old(self)),
        ensures
            properties_inv(final(self)),
            final(self).column_table.rows@.len() == 0,
            final(self).constraint_table.rows@.len() == 0,
            final(self).foreign_key_table.rows@.len() == 0,
            final(self).index_table.rows@.len() == 0,
            final(requests)@.len() == old(requests)@.len() + 1,
            final(requests)@.drop_last() == old(requests)@,
            (final(requests)@.last() matches PoolRequest::FetchProperties { database: d, table: t }
                && d@ == database@ && t@ == table@),
    {
        self.column_table.reset();
        self.constraint_table.reset();
        self.foreign_key_table.reset();
        self.index_table.reset();
        requests.push(
            PoolRequest::FetchProperties { database: database.clone(), table: table.clone() },
        );
    }

    /// Applies the four fetched collections; a collection with no rows
    /// leaves its grid cleared.
    pub fn apply_properties(
        &mut self,
        columns: (Vec<String>, Vec<Vec<String>>),
        constraints: (Vec<String>, Vec<Vec<String>>),
        foreign_keys: (Vec<String>, Vec<Vec<String>>),
        indexes: (Vec<String>, Vec<Vec<String>>),
        database: &Database,
        table: &Table,
    )
        requires
            properties_inv(old(self)),
            rows_match_headers(columns.1@, columns.0@),
            rows_match_headers(constraints.1@, constraints.0@),
            rows_match_headers(foreign_keys.1@, foreign_keys.0@),
            rows_match_headers(indexes.1@, indexes.0@),
        ensures
            properties_inv(final(self)),
            final(self).focus == old(self).focus,
            final(self).key_config == old(self).key_config,
            columns.1@.len() > 0 ==> final(self).column_table.rows == columns.1 && final(self).column_table.headers == columns.0,
            columns.1@.len() == 0 ==> final(self).column_table.rows@.len() == 0 && final(self).column_table.headers@.len() == 0,
            constraints.1@.len() > 0 ==> final(self).constraint_table.rows == constraints.1 && final(self).constraint_table.headers == constraints.0,
            constraints.1@.len() == 0 ==> final(self).constraint_table.rows@.len() == 0 && final(self).constraint_table.headers@.len() == 0,
            foreign_keys.1@.len() > 0 ==> final(self).foreign_key_table.rows == foreign_keys.1 && final(self).foreign_key_table.headers == foreign_keys.0,
            foreign_keys.1@.len() == 0 ==> final(self).foreign_key_table.rows@.len() == 0 && final(self).foreign_key_table.headers@.len() == 0,
            indexes.1@.len() > 0 ==> final(self).index_table.rows == indexes.1 && final(self).index_table.headers == indexes.0,
            indexes.1@.len() == 0 ==> final(self).index_table.rows@.len() == 0 && final(self).index_table.headers@.len() == 0,
    {
        self.column_table.reset();
        if columns.1.len() > 0 {
            self.column_table.update(columns.1, columns.0, database.clone(), table.clone());
        }
        self.constraint_table.reset();
        if constraints.1.len() > 0 {
            self.constraint_table.update(
                constraints.1,
                constraints.0,
                database.clone(),
                table.clone(),
            );
        }
        self.foreign_key_table.reset();
        if foreign_keys.1.len() > 0 {
            self.foreign_key_table.update(
                foreign_keys.1,
                foreign_keys.0,
                database.clone(),
                table.clone(),
            );
        }
        self.index_table.reset();
        if indexes.1.len() > 0 {
            self.index_table.update(indexes.1, indexes.0, database.clone(), table.clone());
        }
    }

    /// The sub-tab labels, in display order.
    pub fn tab_names(&self) -> (r: Vec<String>)
        ensures
            r@.len() == 4,
            r@[0]@ == "Columns"@,
            r@[1]@ == "Constraints"@,
            r@[2]@ == "Foreign keys"@,
            r@[3]@ == "Indexes"@,
    {
        let mut v: Vec<String> = Vec::new();
        v.push(String::from_str("Columns"));
        v.push(String::from_str("Constraints"));
        v.push(String::from_str("Foreign keys"));
        v.push(String::from_str("Indexes"));
        v
    }
}

impl Tab for PropertiesComponent {
    fn tab_type(&self) -> (r: TabType)
        ensures
            r == TabType::Properties,
    {
        TabType::Properties
    }

    fn tab_name(&self) -> (r: String)
        ensures
            r@ == "Properties"@,
    {
        String::from_str("Properties")
    }
}

impl Component for PropertiesComponent {
    open spec fn inv(&self) -> bool {
        properties_inv(self)
    }

    fn commands(&self, _out: &mut Vec<CommandInfo>) {
    }

    /// The focused grid sees the key first; the configured sub-tab keys
    /// switch focus.  Keys always bubble on, as in the surrounding panel.
    fn event(&mut self, key: Key, message_queue: &mut GlobalMessageQueue) -> (r: Result<
        EventState,
        UiError,
    >)
        ensures
            key == old(self).key_config.tab_columns ==> final(self).focus == Focus::Column,
            (key == old(self).key_config.tab_constraints && key != old(self).key_config.tab_columns) ==> final(self).focus == Focus::Constraint,
            (key == old(self).key_config.tab_foreign_keys && key != old(self).key_config.tab_columns && key != old(self).key_config.tab_constraints) ==> final(self).focus == Focus::ForeignKey,
            (key == old(self).key_config.tab_indexes && key != old(self).key_config.tab_columns
                && key != old(self).key_config.tab_constraints && key != old(self).key_config.tab_foreign_keys) ==> final(self).focus == Focus::Index,
            (key != old(self).key_config.tab_columns && key != old(self).key_config.tab_constraints && key != old(self).key_config.tab_foreign_keys && key
                != old(self).key_config.tab_indexes) ==> final(self).focus == old(self).focus,
            (r matches Ok(s) && s == EventState::NotConsumed),
    {
        let res = match self.focus {
            Focus::Column => self.column_table.event(key, message_queue),
            Focus::Constraint => self.constraint_table.event(key, message_queue),
            Focus::ForeignKey => self.foreign_key_table.event(key, message_queue),
            Focus::Index => self.index_table.event(key, message_queue),
        };
        match res {
            Ok(_) => {},
            Err(e) => {
                return Err(e);
            },
        }
        if key == self.key_config.tab_columns {
            self.focus = Focus::Column;
        } else if key == self.key_config.tab_constraints {
            self.focus = Focus::Constraint;
        } else if key == self.key_config.tab_foreign_keys {
            self.focus = Focus::ForeignKey;
        } else if key == self.key_config.tab_indexes {
            self.focus = Focus::Index;
        }
        Ok(EventState::NotConsumed)
    }

    fn reset(&mut self)
        ensures
            final(self).column_table.rows@.len() == 0,
            final(self).constraint_table.rows@.len() == 0,
            final(self).foreign_key_table.rows@.len() == 0,
            final(self).index_table.rows@.len() == 0,
            final(self).focus == Focus::Column,
            final(self).key_config == old(self).key_config,
    {
        self.column_table.reset();
        self.constraint_table.reset();
        self.foreign_key_table.reset();
        self.index_table.reset();
        self.focus = Focus::Column;
    }
}

} // verus!
