//! The table filter and its completion: committing candidates, keyword
//! filtering, and visibility.

use dbtui::app::GlobalMessageQueue;
use dbtui::components::completion::{
    CompletionComponent, DefaultFilterableCompletionSource, FilterableCompletionSource,
};
use dbtui::components::table_filter::TableFilterComponent;
use dbtui::components::{Component, EventState};
use dbtui::config::KeyConfig;
use dbtui::event::Key;

fn type_text(filter: &mut TableFilterComponent, text: &str) {
    let mut q = GlobalMessageQueue::new();
    for c in text.chars() {
        filter.event(Key::Char(c), &mut q).unwrap();
    }
}

#[test]
fn test_complete() {
    let mut filter = TableFilterComponent::new(KeyConfig::default());
    type_text(&mut filter, "an");
    assert!(filter.complete().is_ok());
    assert_eq!(filter.input_str(), "AND");
}

#[test]
fn test_complete_end() {
    let mut filter = TableFilterComponent::new(KeyConfig::default());
    type_text(&mut filter, "ab cdef i");
    assert!(filter.complete().is_ok());
    assert_eq!(filter.input_str(), "ab cdef IN");
}

#[test]
fn test_complete_no_candidates() {
    let mut filter = TableFilterComponent::new(KeyConfig::default());
    type_text(&mut filter, "foo");
    let r = filter.complete();
    assert!(r.is_ok());
    assert_eq!(r.unwrap(), EventState::NotConsumed);
    assert_eq!(filter.input_str(), "foo");
}

#[test]
fn enter_commits_candidate_in_filter() {
    let mut filter = TableFilterComponent::new(KeyConfig::default());
    type_text(&mut filter, "id = 1 an");
    let mut q = GlobalMessageQueue::new();
    assert_eq!(filter.event(Key::Enter, &mut q).unwrap(), EventState::Consumed);
    assert_eq!(filter.input_str(), "id = 1 AND");
}

#[test]
fn keyword_completion_is_case_insensitive_prefix() {
    // A lowercase "an" offers AND and nothing that merely holds "an".
    let source = DefaultFilterableCompletionSource::new();
    let items = source
        .suggested_completion_items(&String::from("an"))
        .unwrap();
    assert!(items.iter().any(|s| s == "AND"));
    assert!(!items.iter().any(|s| s == "FROM"));

    let items = source
        .suggested_completion_items(&String::from("N"))
        .unwrap();
    assert_eq!(items, vec![String::from("NOT"), String::from("NULL")]);
}

#[test]
fn completion_visible_iff_word_nonempty() {
    let mut c = CompletionComponent::new(KeyConfig::default());
    assert!(!c.is_visible());
    c.update(String::from("se"));
    assert!(c.is_visible());
    assert_eq!(c.selected_candidate(), Some(String::from("SELECT")));
    c.update(String::new());
    assert!(!c.is_visible());
}

#[test]
fn completion_selection_saturates() {
    let mut c = CompletionComponent::new(KeyConfig::default());
    c.update(String::from("n")); // NOT, NULL
    assert_eq!(c.selected_candidate(), Some(String::from("NOT")));
    c.next();
    assert_eq!(c.selected_candidate(), Some(String::from("NULL")));
    c.next();
    // No wraparound: stays on the last candidate.
    assert_eq!(c.selected_candidate(), Some(String::from("NULL")));
    c.previous();
    c.previous();
    c.previous();
    assert_eq!(c.selected_candidate(), Some(String::from("NOT")));
}
