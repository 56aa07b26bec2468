//! Key bindings and connection entries.  Reading these from a file is the
//! caller's business; the engine only consumes the plain values.

use vstd::prelude::*;
use crate::event::Key;

verus! {

#[derive(Debug, Clone, Copy, PartialEq, Eq, Structural)]
pub struct KeyConfig {
    pub enter: Key,
    pub exit_popup: Key,
    pub filter: Key,
    pub copy: Key,
    pub move_up: Key,
    pub move_down: Key,
    pub scroll_up: Key,
    pub scroll_down: Key,
    pub scroll_to_top: Key,
    pub scroll_to_bottom: Key,
    pub scroll_up_multiple_lines: Key,
    pub scroll_down_multiple_lines: Key,
    pub scroll_left: Key,
    pub scroll_right: Key,
    pub focus_left: Key,
    pub focus_right: Key,
    pub focus_above: Key,
    pub focus_down: Key,
    pub focus_connections: Key,
    pub tab_records: Key,
    pub tab_properties: Key,
    pub tab_sql_editor: Key,
    pub tab_columns: Key,
    pub tab_constraints: Key,
    pub tab_foreign_keys: Key,
    pub tab_indexes: Key,
    pub extend_or_shorten_widget_width_to_left: Key,
    pub extend_or_shorten_widget_width_to_right: Key,
}

pub open spec fn default_key_config() -> KeyConfig {
    KeyConfig {
        enter: Key::Enter,
        exit_popup: Key::Esc,
        filter: Key::Char('/'),
        copy: Key::Char('y'),
        move_up: Key::Up,
        move_down: Key::Down,
        scroll_up: Key::Up,
        scroll_down: Key::Down,
        scroll_to_top: Key::Char('g'),
        scroll_to_bottom: Key::Char('G'),
        scroll_up_multiple_lines: Key::PageUp,
        scroll_down_multiple_lines: Key::PageDown,
        scroll_left: Key::Left,
        scroll_right: Key::Right,
        focus_left: Key::Left,
        focus_right: Key::Right,
        focus_above: Key::Up,
        focus_down: Key::Down,
        focus_connections: Key::Char('c'),
        tab_records: Key::Char('1'),
        tab_properties: Key::Char('2'),
        tab_sql_editor: Key::Char('3'),
        tab_columns: Key::Char('c'),
        tab_constraints: Key::Char('t'),
        tab_foreign_keys: Key::Char('f'),
        tab_indexes: Key::Char('i'),
        extend_or_shorten_widget_width_to_left: Key::Char('<'),
        extend_or_shorten_widget_width_to_right: Key::Char('>'),
    }
}

impl Default for KeyConfig {
    fn default() -> (r: KeyConfig)
        ensures
            r == default_key_config(),
    {
        KeyConfig {
            enter: Key::Enter,
            exit_popup: Key::Esc,
            filter: Key::Char('/'),
            copy: Key::Char('y'),
            move_up: Key::Up,
            move_down: Key::Down,
            scroll_up: Key::Up,
            scroll_down: Key::Down,
            scroll_to_top: Key::Char('g'),
            scroll_to_bottom: Key::Char('G'),
            scroll_up_multiple_lines: Key::PageUp,
            scroll_down_multiple_lines: Key::PageDown,
            scroll_left: Key::Left,
            scroll_right: Key::Right,
            focus_left: Key::Left,
            focus_right: Key::Right,
            focus_above: Key::Up,
            focus_down: Key::Down,
            focus_connections: Key::Char('c'),
            tab_records: Key::Char('1'),
            tab_properties: Key::Char('2'),
            tab_sql_editor: Key::Char('3'),
            tab_columns: Key::Char('c'),
            tab_constraints: Key::Char('t'),
            tab_foreign_keys: Key::Char('f'),
            tab_indexes: Key::Char('i'),
            extend_or_shorten_widget_width_to_left: Key::Char('<'),
            extend_or_shorten_widget_width_to_right: Key::Char('>'),
        }
    }
}

/// Which database server a connection entry points at.
#[derive(Debug, Clone, Copy, PartialEq, Eq, Structural)]
pub enum DatabaseKind {
    MySql,
    Postgres,
    Sqlite,
}

/// One configured connection.  Building the connection URL and opening the
/// pool happen outside the engine.
#[derive(Debug)]
pub struct Connection {
    pub name: String,
    pub kind: DatabaseKind,
    /// Database this connection is pinned to, if any.
    pub database: Option<String>,
}

impl Clone for Connection {
    fn clone(&self) -> (r: Connection)
        ensures
            r.name@ == self.name@,
            r.kind == self.kind,
            crate::dbtree::view_opt(r.database) == crate::dbtree::view_opt(self.database),
    {
        Connection {
            name: self.name.clone(),
            kind: self.kind,
            database: match &self.database {
                Some(d) => Some(d.clone()),
                None => None,
            },
        }
    }
}

impl Connection {
    pub fn is_mysql(&self) -> (r: bool)
        ensures
            r == (self.kind == DatabaseKind::MySql),
    {
        matches!(self.kind, DatabaseKind::MySql)
    }

    pub fn is_postgres(&self) -> (r: bool)
        ensures
            r == (self.kind == DatabaseKind::Postgres),
    {
        matches!(self.kind, DatabaseKind::Postgres)
    }
}

} // verus!
