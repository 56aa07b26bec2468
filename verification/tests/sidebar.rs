//! The database tree and its sidebar: navigation, filtering, selection,
//! and row rendering.

use dbtui::app::{GlobalMessageQueue, PoolRequest};
use dbtui::components::databases::{tree_item_to_span, DatabasesComponent, TreeItemView};
use dbtui::components::{Component, EventState};
use dbtui::config::KeyConfig;
use dbtui::dbtree::{Child, Database, DatabaseTree, MoveSelection, RowTarget, Table};
use dbtui::event::Key;

fn sample_tree() -> DatabaseTree {
    let tables = vec![
        Child::Table(Table::named(String::from("orders"))),
        Child::Table(Table::named(String::from("users"))),
    ];
    let db = Database::new(String::from("shop"), tables);
    DatabaseTree::new(vec![db])
}

#[test]
fn tree_starts_collapsed_with_one_row() {
    let tree = sample_tree();
    let rows = tree.visible_rows();
    assert_eq!(rows, vec![RowTarget::Db { db: 0 }]);
}

#[test]
fn tree_expand_and_select_table() {
    let mut tree = sample_tree();
    assert!(tree.move_selection(MoveSelection::Right));
    let rows = tree.visible_rows();
    assert_eq!(rows.len(), 3);
    assert!(tree.move_selection(MoveSelection::Down));
    assert!(tree.move_selection(MoveSelection::Down));
    let selected = tree.selected_table().expect("a table row is selected");
    assert_eq!(selected.0.name, "shop");
    assert_eq!(selected.1.name, "users");
    // Collapsing from a table row moves back to the database header.
    assert!(tree.move_selection(MoveSelection::Left));
    assert!(tree.selected_table().is_none());
}

#[test]
fn tree_filter_keeps_matching_tables() {
    let tree = sample_tree();
    let filtered = tree.filter(&String::from("se"));
    // Only "users" holds "se"; the filtered outline is expanded.
    let rows = filtered.visible_rows();
    assert_eq!(rows.len(), 2);
    let mut f2 = filtered;
    assert!(f2.move_selection(MoveSelection::Down));
    let selected = f2.selected_table().expect("the matching table");
    assert_eq!(selected.1.name, "users");

    let none = sample_tree().filter(&String::from("zzz"));
    assert_eq!(none.visible_rows().len(), 0);
}

#[test]
fn test_tree_database_tree_item_to_span() {
    const WIDTH: u16 = 10;
    let db = Database::new(String::from("foo"), Vec::new());
    let spans = tree_item_to_span(TreeItemView::new_database(&db, true), false, WIDTH, None);
    assert_eq!(spans.len(), 1);
    assert_eq!(spans[0].text, format!("\u{25b8}{:w$}", "foo", w = WIDTH as usize));
    assert!(!spans[0].selected);

    let spans = tree_item_to_span(TreeItemView::new_database(&db, true), true, WIDTH, None);
    assert_eq!(spans.len(), 1);
    assert_eq!(spans[0].text, format!("\u{25b8}{:w$}", "foo", w = WIDTH as usize));
    assert!(spans[0].selected);
}

#[test]
fn test_tree_table_tree_item_to_span() {
    const WIDTH: u16 = 10;
    let table = Table::named(String::from("bar"));
    let spans = tree_item_to_span(TreeItemView::new_table(&table), false, WIDTH, None);
    assert_eq!(spans.len(), 1);
    assert_eq!(spans[0].text, format!("  {:w$}", "bar", w = WIDTH as usize));
    assert!(!spans[0].selected);

    let spans = tree_item_to_span(TreeItemView::new_table(&table), true, WIDTH, None);
    assert_eq!(spans.len(), 1);
    assert_eq!(spans[0].text, format!("  {:w$}", "bar", w = WIDTH as usize));
    assert!(spans[0].selected);
}

#[test]
fn test_filterd_tree_item_to_span() {
    const WIDTH: u16 = 10;
    let table = Table::named(String::from("barbaz"));
    let spans = tree_item_to_span(
        TreeItemView::new_table(&table),
        false,
        WIDTH,
        Some(String::from("rb")),
    );
    assert_eq!(spans.len(), 3);
    assert_eq!(spans[0].text, format!("  {}", "ba"));
    assert_eq!(spans[1].text, "rb");
    assert_eq!(spans[2].text, format!("{:w$}", "az", w = WIDTH as usize));
    assert!(spans[1].highlight);
    assert!(!spans[0].highlight && !spans[2].highlight);

    let spans = tree_item_to_span(
        TreeItemView::new_table(&table),
        true,
        WIDTH,
        Some(String::from("rb")),
    );
    assert_eq!(spans.len(), 3);
    assert!(spans.iter().all(|s| s.selected));
}

#[test]
fn sidebar_fetches_pinned_database_list() {
    let mut sidebar = DatabasesComponent::new(KeyConfig::default());
    let mut requests: Vec<PoolRequest> = Vec::new();
    let conn = dbtui::config::Connection {
        name: String::from("local"),
        kind: dbtui::config::DatabaseKind::MySql,
        database: Some(String::from("shop")),
    };
    sidebar.on_connection_changed(&Some(conn), &mut requests);
    assert_eq!(requests.len(), 1);
    assert!(
        matches!(&requests[0], PoolRequest::FetchDatabases { pinned: Some(p) } if p == "shop")
    );
    // The fetched list replaces the outline, selection reset.
    sidebar.apply_databases(vec![Database::new(String::from("shop"), Vec::new())]);
    assert_eq!(sidebar.tree.nodes.len(), 1);
    assert_eq!(sidebar.tree.selection, 0);
}

#[test]
fn sidebar_enter_on_table_broadcasts_selection() {
    let mut sidebar = DatabasesComponent::new(KeyConfig::default());
    sidebar.apply_databases(vec![Database::new(
        String::from("shop"),
        vec![Child::Table(Table::named(String::from("orders")))],
    )]);
    let mut q = GlobalMessageQueue::new();
    sidebar.event(Key::Right, &mut q).unwrap();
    sidebar.event(Key::Down, &mut q).unwrap();
    assert_eq!(sidebar.event(Key::Enter, &mut q).unwrap(), EventState::Consumed);
    let drained = q.drain();
    assert_eq!(drained.len(), 1);
    assert!(matches!(
        &drained[0],
        dbtui::app::AppMessage::Database(
            dbtui::components::databases::DatabaseEvent::TableSelected(d, t)
        ) if d.name == "shop" && t.name == "orders"
    ));
}
