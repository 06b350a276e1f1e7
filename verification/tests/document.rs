use ghostty_lsp::document::{
    apply_change, apply_event, new_document, on_change, on_open, ContentChange, Position, Range,
    SyncEvent,
};
use ghostty_lsp::hover::hover_contents;

fn full(text: &str) -> ContentChange {
    ContentChange { range: None, range_length: None, text: text.to_string() }
}

fn ranged(text: &str) -> ContentChange {
    let start = Position { line: 0, character: 0 };
    let end = Position { line: 0, character: 1 };
    ContentChange { range: Some(Range { start, end }), range_length: Some(1), text: text.to_string() }
}

#[test]
fn a_document_starts_empty() {
    let mut doc = new_document();
    assert_eq!(doc, "");
    assert_eq!(hover_contents(&doc, 0), "No hover contents found");
    on_change(&mut doc, &vec![ranged("x")]);
    assert_eq!(doc, "");
    on_open(&mut doc, "theme = dark".to_string());
    assert_eq!(doc, "theme = dark");
}

#[test]
fn an_open_replaces_whatever_was_tracked() {
    let mut doc = String::new();
    on_open(&mut doc, "font-size = 12\n".to_string());
    assert_eq!(doc, "font-size = 12\n");
    on_open(&mut doc, "theme = dark".to_string());
    assert_eq!(doc, "theme = dark");
    on_open(&mut doc, String::new());
    assert_eq!(doc, "");
}

#[test]
fn a_full_text_change_replaces_and_does_not_merge() {
    let mut doc = String::new();
    on_open(&mut doc, "font-size = 12\nbackground = #000000\n".to_string());
    on_change(&mut doc, &vec![full("x")]);
    assert_eq!(doc, "x");
}

#[test]
fn a_change_with_a_range_is_left_unapplied() {
    let mut doc = "theme = dark".to_string();
    assert!(!apply_change(&mut doc, &ranged("T")));
    assert_eq!(doc, "theme = dark");
    assert!(apply_change(&mut doc, &full("theme = light")));
    assert_eq!(doc, "theme = light");
    let mut doc = "theme = dark".to_string();
    on_change(&mut doc, &vec![ranged("a"), ranged("b")]);
    assert_eq!(doc, "theme = dark");
}

#[test]
fn changes_apply_in_their_order() {
    let mut doc = "zero".to_string();
    on_change(&mut doc, &vec![full("one"), ranged("x"), full("two"), ranged("y")]);
    assert_eq!(doc, "two");
    on_change(&mut doc, &vec![]);
    assert_eq!(doc, "two");
    on_change(&mut doc, &vec![ranged("x"), full("three")]);
    assert_eq!(doc, "three");
}

#[test]
fn the_same_change_twice_is_the_change_once() {
    let mut once = "before".to_string();
    on_change(&mut once, &vec![full("font-size = 12")]);
    let mut twice = "before".to_string();
    on_change(&mut twice, &vec![full("font-size = 12")]);
    on_change(&mut twice, &vec![full("font-size = 12")]);
    assert_eq!(once, "font-size = 12");
    assert_eq!(twice, once);

    let mixed = vec![ranged("a"), full("b"), ranged("c")];
    let mut again = "before".to_string();
    on_change(&mut again, &mixed);
    let first = again.clone();
    on_change(&mut again, &mixed);
    assert_eq!(again, first);
}

#[test]
fn events_are_applied_as_their_kind_says() {
    let mut doc = "old".to_string();
    apply_event(&mut doc, SyncEvent::Opened { text: "opened".to_string() });
    assert_eq!(doc, "opened");
    apply_event(&mut doc, SyncEvent::Changed { changes: vec![ranged("r")] });
    assert_eq!(doc, "opened");
    apply_event(&mut doc, SyncEvent::Changed { changes: vec![full("changed")] });
    assert_eq!(doc, "changed");
}

#[test]
fn hover_follows_the_latest_text() {
    let mut doc = String::new();
    on_open(&mut doc, "font-size = 12\ntheme = dark\n".to_string());
    assert_eq!(hover_contents(&doc, 0), "Font size in points");
    on_change(&mut doc, &vec![full("background = #000000\n")]);
    assert_eq!(hover_contents(&doc, 0), "Background color for the window");
    assert_eq!(hover_contents(&doc, 1), "No hover contents found");
    on_change(&mut doc, &vec![ranged("font-size = 12\n")]);
    assert_eq!(hover_contents(&doc, 0), "Background color for the window");
}
