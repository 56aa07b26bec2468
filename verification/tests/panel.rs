//! The tab panel: opening, renaming and closing editors, selection bounds,
//! and the fixed tabs.

use dbtui::app::{AppMessage, GlobalMessageQueue, PoolRequest};
use dbtui::components::tab::{Focus, TabContent, TabMessage, TabPanel};
use dbtui::components::{Component, EventState};
use dbtui::config::KeyConfig;
use dbtui::dbtree::{Database, Table};
use dbtui::event::Key;

fn broadcast(panel: &mut TabPanel, msg: AppMessage) -> Vec<PoolRequest> {
    let mut requests = Vec::new();
    panel.handle_messages(&vec![msg], &mut requests).unwrap();
    requests
}

#[test]
fn panel_starts_with_fixed_tabs() {
    let panel = TabPanel::new(KeyConfig::default());
    assert_eq!(panel.toolbar.tab_names, vec!["Records", "Properties"]);
    assert!(matches!(panel.tab_components[0], TabContent::Records(_)));
    assert!(matches!(panel.tab_components[1], TabContent::Properties(_)));
}

#[test]
fn open_rename_close_editor() {
    let mut panel = TabPanel::new(KeyConfig::default());
    let mut q = GlobalMessageQueue::new();

    // 'a' on the toolbar queues a new-editor broadcast.
    assert_eq!(
        panel.event(Key::Char('a'), &mut q).unwrap(),
        EventState::Consumed
    );
    let drained = q.drain();
    assert!(matches!(
        drained[0],
        AppMessage::Tab(TabMessage::NewEditor)
    ));
    for m in drained {
        broadcast(&mut panel, m);
    }
    assert_eq!(panel.toolbar.tab_names.len(), 3);
    assert_eq!(panel.toolbar.tab_names[2], "Sql Editor 1");

    // Rename the third tab to "reports".
    panel.toolbar.selected_tab_index = 2;
    panel.event(Key::Char('r'), &mut q).unwrap();
    for c in "reports".chars() {
        panel.event(Key::Char(c), &mut q).unwrap();
    }
    panel.event(Key::Enter, &mut q).unwrap();
    for m in q.drain() {
        broadcast(&mut panel, m);
    }
    assert!(panel.toolbar.tab_names[2].ends_with("reports"));

    // 'x' closes the selected editor; the selection falls back in range.
    panel.event(Key::Char('x'), &mut q).unwrap();
    for m in q.drain() {
        broadcast(&mut panel, m);
    }
    assert_eq!(panel.toolbar.tab_names.len(), 2);
    assert!(panel.toolbar.selected_tab_index < 2);
}

#[test]
fn records_and_properties_tabs_never_close() {
    let mut panel = TabPanel::new(KeyConfig::default());
    for _ in 0..3 {
        broadcast(&mut panel, AppMessage::Tab(TabMessage::CloseCurrentEditor));
        assert_eq!(panel.toolbar.tab_names.len(), 2);
        assert!(matches!(panel.tab_components[0], TabContent::Records(_)));
        assert!(matches!(panel.tab_components[1], TabContent::Properties(_)));
    }
}

#[test]
fn selection_stays_in_range_over_open_close_sequences() {
    let mut panel = TabPanel::new(KeyConfig::default());
    let script = [
        AppMessage::Tab(TabMessage::NewEditor),
        AppMessage::Tab(TabMessage::NewEditor),
        AppMessage::Tab(TabMessage::CloseCurrentEditor),
        AppMessage::Tab(TabMessage::NewEditor),
        AppMessage::Tab(TabMessage::CloseCurrentEditor),
        AppMessage::Tab(TabMessage::CloseCurrentEditor),
    ];
    for m in script {
        broadcast(&mut panel, m);
        panel.toolbar.selected_tab_index = panel.toolbar.tab_names.len() - 1;
        broadcast(&mut panel, AppMessage::Tab(TabMessage::CloseCurrentEditor));
        assert!(panel.toolbar.selected_tab_index < panel.toolbar.tab_names.len());
        assert!(panel.toolbar.tab_names.len() >= 2);
    }
}

#[test]
fn table_selected_resets_panel_and_requests_fetches() {
    let mut panel = TabPanel::new(KeyConfig::default());
    panel.toolbar.selected_tab_index = 1;
    panel.focus = Focus::Toolbar;
    let requests = broadcast(
        &mut panel,
        AppMessage::Database(dbtui::components::databases::DatabaseEvent::TableSelected(
            Database::new(String::from("shop"), Vec::new()),
            Table::named(String::from("orders")),
        )),
    );
    assert_eq!(panel.toolbar.selected_tab_index, 0);
    assert!(matches!(panel.focus, Focus::Content));
    // Both fixed tabs ask for their data.
    assert!(requests.iter().any(
        |r| matches!(r, PoolRequest::FetchRecords { page, filter, .. } if *page == 0 && filter.is_none())
    ));
    assert!(requests
        .iter()
        .any(|r| matches!(r, PoolRequest::FetchProperties { .. })));
}

#[test]
fn panel_reset_matches_fresh_instance() {
    // Reset drops open editor tabs and returns to the fixed two.
    let mut panel = TabPanel::new(KeyConfig::default());
    broadcast(&mut panel, AppMessage::Tab(TabMessage::NewEditor));
    broadcast(&mut panel, AppMessage::Tab(TabMessage::NewEditor));
    panel.toolbar.selected_tab_index = 3;
    panel.reset();
    let fresh = TabPanel::new(KeyConfig::default());
    assert_eq!(panel.toolbar.tab_names, fresh.toolbar.tab_names);
    assert_eq!(panel.tab_components.len(), 2);
    assert_eq!(panel.toolbar.selected_tab_index, 0);
    assert!(matches!(panel.focus, Focus::Toolbar));
    assert!(matches!(panel.tab_components[0], TabContent::Records(_)));
    assert!(matches!(panel.tab_components[1], TabContent::Properties(_)));
}

#[test]
fn digits_and_arrows_move_toolbar_selection() {
    let mut panel = TabPanel::new(KeyConfig::default());
    let mut q = GlobalMessageQueue::new();
    assert_eq!(
        panel.event(Key::Char('2'), &mut q).unwrap(),
        EventState::Consumed
    );
    assert_eq!(panel.toolbar.selected_tab_index, 1);
    assert_eq!(panel.event(Key::Left, &mut q).unwrap(), EventState::Consumed);
    assert_eq!(panel.toolbar.selected_tab_index, 0);
    assert_eq!(panel.event(Key::End, &mut q).unwrap(), EventState::Consumed);
    assert_eq!(panel.toolbar.selected_tab_index, 1);
    assert_eq!(panel.event(Key::Home, &mut q).unwrap(), EventState::Consumed);
    assert_eq!(panel.toolbar.selected_tab_index, 0);
    // A digit past the tab count is not consumed.
    assert_eq!(
        panel.event(Key::Char('9'), &mut q).unwrap(),
        EventState::NotConsumed
    );
}
