//! The single-line input and the multi-line editor: cursor discipline,
//! word-boundary deletion, and completion commits.

use dbtui::app::GlobalMessageQueue;
use dbtui::components::{Component, EventState};
use dbtui::config::KeyConfig;
use dbtui::event::Key;
use dbtui::ui::textarea::TextArea;
use dbtui::ui::textbox::TextBox;

fn textbox_with(text: &str) -> TextBox {
    let mut tb = TextBox::default();
    tb.set_str(&String::from(text));
    tb
}

#[test]
fn ctrl_backspace_deletes_to_word_boundary() {
    // The cursor sits at the end; deletion stops after the separator run.
    let mut tb = textbox_with("SELECT * FROM us");
    let r = tb.handle_textbox_event(Key::CtrlBackspace).unwrap();
    assert_eq!(r, EventState::Consumed);
    assert_eq!(tb.get_text(), "SELECT * FROM ");
}

#[test]
fn ctrl_backspace_on_single_word_clears() {
    let mut tb = textbox_with("SELECT");
    tb.handle_textbox_event(Key::CtrlBackspace).unwrap();
    assert_eq!(tb.get_text(), "");
    assert_eq!(tb.input_cursor_position, 0);
}

#[test]
fn textbox_insert_and_moves() {
    let mut tb = TextBox::default();
    for c in "abc".chars() {
        tb.handle_textbox_event(Key::Char(c)).unwrap();
    }
    assert_eq!(tb.get_text(), "abc");
    assert_eq!(tb.input_cursor_position, 3);
    tb.handle_textbox_event(Key::Left).unwrap();
    tb.handle_textbox_event(Key::Char('x')).unwrap();
    assert_eq!(tb.get_text(), "abxc");
    tb.handle_textbox_event(Key::Home).unwrap();
    assert_eq!(tb.input_cursor_position, 0);
    tb.handle_textbox_event(Key::Delete).unwrap();
    assert_eq!(tb.get_text(), "bxc");
    tb.handle_textbox_event(Key::End).unwrap();
    tb.handle_textbox_event(Key::Backspace).unwrap();
    assert_eq!(tb.get_text(), "bx");
}

#[test]
fn replace_last_word_part_round_trip() {
    // Committing a word and reading the word part back returns it.
    let mut tb = textbox_with("select * from us");
    tb.replace_last_word_part(String::from("users"));
    assert_eq!(tb.get_text(), "select * from users");
    assert_eq!(tb.last_word_part(), Some(String::from("users")));
}

#[test]
fn ctrl_left_steps_to_previous_word_boundaries() {
    let mut tb = textbox_with("SELECT * FROM us");
    tb.handle_textbox_event(Key::CtrlLeft).unwrap();
    assert_eq!(tb.input_cursor_position, 14); // start of "us"
    tb.handle_textbox_event(Key::CtrlLeft).unwrap();
    assert_eq!(tb.input_cursor_position, 9); // start of "FROM"
    tb.handle_textbox_event(Key::CtrlLeft).unwrap();
    assert_eq!(tb.input_cursor_position, 0); // start of "SELECT" ("*" is a separator)
    tb.handle_textbox_event(Key::CtrlLeft).unwrap();
    assert_eq!(tb.input_cursor_position, 0);
}

#[test]
fn delete_at_end_of_document_changes_nothing() {
    // Even on an empty last line, Delete at the end of the document is a
    // no-op that bubbles up.
    let mut area = TextArea::new(KeyConfig::default());
    type_area(&mut area, "a");
    let mut q = GlobalMessageQueue::new();
    // Hide the dropdown the typing opened, then split the line.
    area.event(Key::Left, &mut q).unwrap();
    area.event(Key::Right, &mut q).unwrap();
    area.event(Key::Enter, &mut q).unwrap();
    assert_eq!(
        area.event(Key::Delete, &mut q).unwrap(),
        EventState::NotConsumed
    );
    assert_eq!(area.get_text(), "a\n");
    assert_eq!(area.cursor_position.row.0, 1);

    // An empty line in the middle is swallowed by the merge.
    area.event(Key::CtrlHome, &mut q).unwrap();
    area.event(Key::End, &mut q).unwrap();
    area.event(Key::Enter, &mut q).unwrap(); // lines: "a", "", ""
    area.event(Key::Delete, &mut q).unwrap(); // merge: "a", ""
    assert_eq!(area.get_text(), "a\n");
}

#[test]
fn textbox_cursor_stays_in_bounds() {
    let mut tb = TextBox::default();
    for key in [
        Key::Left,
        Key::Backspace,
        Key::Delete,
        Key::Right,
        Key::End,
        Key::Home,
    ] {
        tb.handle_textbox_event(key).unwrap();
        assert!(tb.input_cursor_position <= tb.input.len());
    }
    for c in "ab".chars() {
        tb.handle_textbox_event(Key::Char(c)).unwrap();
        assert!(tb.input_cursor_position <= tb.input.len());
    }
}

fn type_area(area: &mut TextArea, text: &str) {
    let mut q = GlobalMessageQueue::new();
    for c in text.chars() {
        area.event(Key::Char(c), &mut q).unwrap();
    }
}

#[test]
fn textarea_tab_commits_select() {
    // Typing "sel" surfaces SELECT; Tab commits it into the line.
    let mut area = TextArea::new(KeyConfig::default());
    type_area(&mut area, "sel");
    assert!(area.completion.is_visible());
    let mut q = GlobalMessageQueue::new();
    assert_eq!(area.event(Key::Tab, &mut q).unwrap(), EventState::Consumed);
    assert_eq!(area.get_text(), "SELECT");
    assert!(!area.completion.is_visible());
}

#[test]
fn textarea_enter_splits_line() {
    let mut area = TextArea::new(KeyConfig::default());
    type_area(&mut area, "abcd");
    let mut q = GlobalMessageQueue::new();
    area.event(Key::Left, &mut q).unwrap();
    area.event(Key::Left, &mut q).unwrap();
    area.event(Key::Enter, &mut q).unwrap();
    assert_eq!(area.get_text(), "ab\ncd");
    assert_eq!(area.cursor_position.row.0, 1);
    assert_eq!(area.cursor_position.col.0, 0);
}

#[test]
fn textarea_backspace_merges_lines() {
    let mut area = TextArea::new(KeyConfig::default());
    type_area(&mut area, "ab");
    let mut q = GlobalMessageQueue::new();
    area.event(Key::Enter, &mut q).unwrap();
    type_area(&mut area, "cd");
    area.event(Key::Home, &mut q).unwrap();
    area.event(Key::Backspace, &mut q).unwrap();
    assert_eq!(area.get_text(), "abcd");
    assert_eq!(area.cursor_position.row.0, 0);
    assert_eq!(area.cursor_position.col.0, 2);
}

#[test]
fn textarea_delete_merges_next_line() {
    let mut area = TextArea::new(KeyConfig::default());
    type_area(&mut area, "ab");
    let mut q = GlobalMessageQueue::new();
    area.event(Key::Enter, &mut q).unwrap();
    type_area(&mut area, "cd");
    area.event(Key::CtrlHome, &mut q).unwrap();
    area.event(Key::End, &mut q).unwrap();
    area.event(Key::Delete, &mut q).unwrap();
    assert_eq!(area.get_text(), "abcd");
}

#[test]
fn textarea_vertical_moves_clamp_column() {
    let mut area = TextArea::new(KeyConfig::default());
    type_area(&mut area, "long line");
    let mut q = GlobalMessageQueue::new();
    area.event(Key::Enter, &mut q).unwrap();
    type_area(&mut area, "ab");
    // Arrow keys first hide the dropdown the typing opened.
    area.event(Key::Left, &mut q).unwrap();
    area.event(Key::Right, &mut q).unwrap();
    // The cursor ends on the short line; moving up keeps the column, moving
    // back down clamps to the short line's length.
    area.event(Key::Up, &mut q).unwrap();
    area.event(Key::End, &mut q).unwrap();
    assert_eq!(area.cursor_position.col.0, 9);
    area.event(Key::Down, &mut q).unwrap();
    assert_eq!(area.cursor_position.row.0, 1);
    assert_eq!(area.cursor_position.col.0, 2);
    assert!(area.cursor_position.col.0 as usize <= area.buffer[1].len());
}

#[test]
fn textarea_reset_matches_fresh_instance() {
    let mut area = TextArea::new(KeyConfig::default());
    type_area(&mut area, "abc");
    area.reset();
    let fresh = TextArea::new(KeyConfig::default());
    assert_eq!(area.get_text(), fresh.get_text());
    assert_eq!(area.cursor_position.row.0, 0);
    assert_eq!(area.cursor_position.col.0, 0);
    assert!(!area.completion.is_visible());
}
