//! Reset behavior: a component returns to its freshly-built state for the
//! same configuration.

use dbtui::app::GlobalMessageQueue;
use dbtui::components::table::TableComponent;
use dbtui::components::{Component, EventState};
use dbtui::config::KeyConfig;
use dbtui::event::Key;
use dbtui::err::UiError;
use dbtui::ui::textbox::TextBox;

#[test]
fn textbox_reset_matches_fresh_instance() {
    let mut tb = TextBox::default().with_placeholder(String::from("hint"));
    let mut q = GlobalMessageQueue::new();
    for c in "abc".chars() {
        tb.event(Key::Char(c), &mut q).unwrap();
    }
    tb.reset();
    let fresh = TextBox::default().with_placeholder(String::from("hint"));
    assert_eq!(tb.get_text(), fresh.get_text());
    assert_eq!(tb.input_cursor_position, fresh.input_cursor_position);
    assert_eq!(tb.placeholder, fresh.placeholder);
    assert_eq!(tb.label, fresh.label);
}

#[test]
fn grid_reset_matches_fresh_instance() {
    let mut grid = TableComponent::new(KeyConfig::default());
    grid.update(
        vec![vec![String::from("1")]],
        vec![String::from("id")],
        dbtui::dbtree::Database::new(String::from("d"), Vec::new()),
        dbtui::dbtree::Table::named(String::from("t")),
    );
    let mut q = GlobalMessageQueue::new();
    grid.event(Key::Down, &mut q).unwrap();
    grid.reset();
    let fresh = TableComponent::new(KeyConfig::default());
    assert_eq!(grid.rows.len(), fresh.rows.len());
    assert_eq!(grid.headers.len(), fresh.headers.len());
    assert_eq!(grid.selected_row, fresh.selected_row);
    assert_eq!(grid.selected_column, fresh.selected_column);
    assert_eq!(grid.eod, fresh.eod);
    assert!(grid.database.is_none() && grid.table.is_none());
}

#[test]
fn toolbar_reset_returns_to_first_tab() {
    let mut toolbar = dbtui::components::tab::TabToolbar::new(
        vec![String::from("Records"), String::from("Properties")],
        KeyConfig::default(),
    );
    let mut q = GlobalMessageQueue::new();
    assert_eq!(toolbar.event(Key::End, &mut q).unwrap(), EventState::Consumed);
    assert_eq!(toolbar.selected_tab_index, 1);
    toolbar.reset();
    assert_eq!(toolbar.selected_tab_index, 0);
}

#[test]
fn error_messages_name_their_kind() {
    assert_eq!(
        UiError::ConnectionFailed(String::from("refused")).message(),
        "connection failed: refused"
    );
    assert_eq!(
        UiError::UnsupportedColumnType {
            column: String::from("c"),
            declared_type: String::from("POINT"),
        }
        .message(),
        "column type not implemented: `c` POINT"
    );
    assert_eq!(
        UiError::QueryFailed(String::from("syntax")).message(),
        "query failed: syntax"
    );
    assert_eq!(
        UiError::ConfigError(String::from("bad path")).message(),
        "config error: bad path"
    );
}
