//! The application shell: sidebar width stepping, focus movement, and the
//! error overlay.

use dbtui::app::{App, AppMessage, ConnectionEvent, Focus, PoolRequest};
use dbtui::components::error::ErrorComponent;
use dbtui::components::{Component, EventState};
use dbtui::config::{Connection, DatabaseKind, KeyConfig};
use dbtui::event::Key;

#[test]
fn test_extend_or_shorten_widget_width() {
    let mut app = App::new(KeyConfig::default());
    assert_eq!(
        app.extend_or_shorten_widget_width(Key::Char('>')),
        EventState::Consumed
    );
    assert_eq!(app.left_main_chunk_percentage, 20);

    app.left_main_chunk_percentage = 70;
    assert_eq!(
        app.extend_or_shorten_widget_width(Key::Char('>')),
        EventState::Consumed
    );
    assert_eq!(app.left_main_chunk_percentage, 70);

    assert_eq!(
        app.extend_or_shorten_widget_width(Key::Char('<')),
        EventState::Consumed
    );
    assert_eq!(app.left_main_chunk_percentage, 65);

    app.left_main_chunk_percentage = 15;
    assert_eq!(
        app.extend_or_shorten_widget_width(Key::Char('<')),
        EventState::Consumed
    );
    assert_eq!(app.left_main_chunk_percentage, 10);

    app.left_main_chunk_percentage = 3;
    assert_eq!(
        app.extend_or_shorten_widget_width(Key::Char('<')),
        EventState::Consumed
    );
    assert_eq!(app.left_main_chunk_percentage, 0);
}

#[test]
fn connection_change_opens_pool_and_moves_focus() {
    let mut app = App::new(KeyConfig::default());
    let conn = Connection {
        name: String::from("local"),
        kind: DatabaseKind::MySql,
        database: Some(String::from("shop")),
    };
    app.connection_chosen(conn);
    let requests = app.dispatch_messages().unwrap();
    assert_eq!(app.focus, Focus::DatabaseList);
    // The pool swap is requested, and the sidebar asks for the pinned list.
    assert!(requests
        .iter()
        .any(|r| matches!(r, PoolRequest::OpenPool(c) if c.name == "local")));
    assert!(requests
        .iter()
        .any(|r| matches!(r, PoolRequest::FetchDatabases { pinned: Some(p) } if p == "shop")));
}

#[test]
fn table_selected_moves_focus_to_panel() {
    let mut app = App::new(KeyConfig::default());
    app.message_queue.push(AppMessage::Database(
        dbtui::components::databases::DatabaseEvent::TableSelected(
            dbtui::dbtree::Database::new(String::from("shop"), Vec::new()),
            dbtui::dbtree::Table::named(String::from("orders")),
        ),
    ));
    let _ = app.dispatch_messages().unwrap();
    assert_eq!(app.focus, Focus::TabPanel);
    // The panel lands on the records tab with content focus.
    assert_eq!(app.tab_panel.toolbar.selected_tab_index, 0);
    assert_eq!(
        app.tab_panel.focus,
        dbtui::components::tab::Focus::Content
    );
}

#[test]
fn error_overlay_swallows_keys_and_dismisses() {
    let mut err = ErrorComponent::new(KeyConfig::default());
    let mut q = dbtui::app::GlobalMessageQueue::new();
    assert_eq!(
        err.event(Key::Char('z'), &mut q).unwrap(),
        EventState::NotConsumed
    );
    err.set(String::from("query failed")).unwrap();
    assert!(err.visible);
    // Any key while visible is consumed without altering the message.
    assert_eq!(
        err.event(Key::Char('z'), &mut q).unwrap(),
        EventState::Consumed
    );
    assert_eq!(err.error, "query failed");
    // The dismiss key clears the overlay.
    assert_eq!(err.event(Key::Esc, &mut q).unwrap(), EventState::Consumed);
    assert!(!err.visible);
    assert_eq!(err.error, "");
}

#[test]
fn message_queue_drains_once() {
    let mut q = dbtui::app::GlobalMessageQueue::new();
    q.push(AppMessage::Connection(ConnectionEvent::ConnectionChanged(
        None,
    )));
    q.push(AppMessage::Tab(dbtui::components::tab::TabMessage::NewEditor));
    let drained = q.drain();
    assert_eq!(drained.len(), 2);
    assert_eq!(q.drain().len(), 0);
}
