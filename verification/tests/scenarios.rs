//! End-to-end slices of a session, driven entirely through the engine:
//! picking a table, filtering records, submitting a statement, and paging.

use dbtui::app::{App, AppMessage, Focus, GlobalMessageQueue, PoolRequest};
use dbtui::components::record_table::RecordTableComponent;
use dbtui::components::tab::TabContent;
use dbtui::components::Component;
use dbtui::config::{Connection, DatabaseKind, KeyConfig};
use dbtui::dbtree::{Child, Database, Table};
use dbtui::event::Key;

fn pinned_shop_app() -> App {
    let mut app = App::new(KeyConfig::default());
    app.connection_chosen(Connection {
        name: String::from("local"),
        kind: DatabaseKind::MySql,
        database: Some(String::from("shop")),
    });
    let _ = app.dispatch_messages().unwrap();
    app.databases.apply_databases(vec![Database::new(
        String::from("shop"),
        vec![
            Child::Table(Table::named(String::from("orders"))),
            Child::Table(Table::named(String::from("users"))),
        ],
    )]);
    app
}

#[test]
fn select_table_fetches_records_and_properties() {
    // A pinned MySQL session: expand the sidebar, select `orders`, and the
    // records and properties tabs each ask for their data.
    let mut app = pinned_shop_app();
    assert_eq!(app.focus, Focus::DatabaseList);
    app.event(Key::Right).unwrap();
    app.event(Key::Down).unwrap();
    let (_, requests) = app.event(Key::Enter).unwrap();
    assert_eq!(app.focus, Focus::TabPanel);
    assert_eq!(app.tab_panel.toolbar.selected_tab_index, 0);
    assert!(requests.iter().any(|r| matches!(
        r,
        PoolRequest::FetchRecords { database, table, page, filter }
            if database.name == "shop" && table.name == "orders" && *page == 0 && filter.is_none()
    )));
    assert!(requests.iter().any(|r| matches!(
        r,
        PoolRequest::FetchProperties { table, .. } if table.name == "orders"
    )));
}

fn records_tab(app: &mut App) -> &mut RecordTableComponent {
    match app.tab_panel.tab_components.get_mut(0) {
        Some(TabContent::Records(rc)) => rc,
        _ => panic!("records tab missing"),
    }
}

#[test]
fn filter_submit_refetches_with_predicate() {
    // Typing `id = 1` into the record filter and pressing Enter asks for a
    // fresh first page carrying the predicate verbatim.
    let mut app = pinned_shop_app();
    {
        let rc = records_tab(&mut app);
        let mut requests = Vec::new();
        rc.on_table_selected(
            &Database::new(String::from("shop"), Vec::new()),
            &Table::named(String::from("orders")),
            &mut requests,
        );
        let mut q = GlobalMessageQueue::new();
        rc.event(Key::Char('/'), &mut q).unwrap();
        for c in "id = 1".chars() {
            rc.event(Key::Char(c), &mut q).unwrap();
        }
        rc.event(Key::Enter, &mut q).unwrap();
        let drained = q.drain();
        assert!(drained.iter().any(|m| matches!(
            m,
            AppMessage::Pool(PoolRequest::FetchRecords { page, filter: Some(f), .. })
                if *page == 0 && f == "id = 1"
        )));
    }
}

#[test]
fn scrolling_past_a_full_page_requests_the_next() {
    let mut app = pinned_shop_app();
    let rc = records_tab(&mut app);
    let headers = vec![String::from("id")];
    let page: Vec<Vec<String>> = (0..200).map(|i: usize| vec![i.to_string()]).collect();
    rc.apply_records(
        headers,
        page,
        Database::new(String::from("shop"), Vec::new()),
        Table::named(String::from("orders")),
    );
    rc.database = Some(Database::new(String::from("shop"), Vec::new()));
    rc.dtable = Some(Table::named(String::from("orders")));
    let mut q = GlobalMessageQueue::new();
    // Scroll to the last row of the page; the follow-up fetch uses the row
    // count as its offset.
    rc.event(Key::Char('G'), &mut q).unwrap();
    let drained = q.drain();
    assert!(drained.iter().any(|m| matches!(
        m,
        AppMessage::Pool(PoolRequest::FetchRecords { page, .. }) if *page == 200
    )));
}

#[test]
fn f5_submits_the_editor_buffer() {
    let mut app = pinned_shop_app();
    // Open an editor tab and type a statement.
    app.focus = Focus::TabPanel;
    app.event(Key::Char('a')).unwrap();
    app.tab_panel.toolbar.selected_tab_index = 2;
    app.tab_panel.focus = dbtui::components::tab::Focus::Content;
    for c in "SELECT 1".chars() {
        app.event(Key::Char(c)).unwrap();
    }
    let (_, requests) = app.event(Key::F5).unwrap();
    assert!(requests.iter().any(|r| matches!(
        r,
        PoolRequest::ExecuteQuery { query } if query == "SELECT 1"
    )));
}

#[test]
fn failed_query_leaves_state_and_overlay_restores() {
    // An invalid statement surfaces through the overlay; dismissing it
    // returns the session to its prior state.
    let mut app = pinned_shop_app();
    let before = app.focus;
    app.error
        .set(String::from("query failed: syntax error"))
        .unwrap();
    let (state, _) = app.event(Key::Char('j')).unwrap();
    assert_eq!(state, dbtui::components::EventState::Consumed);
    assert_eq!(app.error.error, "query failed: syntax error");
    app.event(Key::Esc).unwrap();
    assert!(!app.error.visible);
    assert_eq!(app.focus, before);
}

#[test]
fn editor_scroll_policy_follows_cursor() {
    let mut area = dbtui::ui::textarea::TextArea::new(KeyConfig::default());
    let mut q = GlobalMessageQueue::new();
    for _ in 0..5 {
        area.event(Key::Enter, &mut q).unwrap();
    }
    // Six lines, cursor on the last: a three-row viewport scrolls so the
    // cursor sits on its last visible row.
    assert_eq!(area.cursor_position.row.0, 5);
    assert_eq!(area.scroll_offsets(3, 10), (3, 0));
    assert_eq!(area.scroll_offsets(10, 10), (0, 0));
}
