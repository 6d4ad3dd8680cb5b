use file_browser::browser::{Browser, BrowserAction};
use file_browser::command::{interpret_key, KeyCommand};

fn listing(names: &[&str]) -> Vec<String> {
    names.iter().map(|n| n.to_string()).collect()
}

#[test]
fn interpret_key_maps_each_command_key() {
    assert_eq!(interpret_key('j'), KeyCommand::MoveDown);
    assert_eq!(interpret_key('k'), KeyCommand::MoveUp);
    assert_eq!(interpret_key('l'), KeyCommand::Select);
    assert_eq!(interpret_key('q'), KeyCommand::Quit);
    assert_eq!(interpret_key('a'), KeyCommand::CreateFile);
}

#[test]
fn interpret_key_maps_everything_else_to_unknown() {
    assert_eq!(interpret_key('x'), KeyCommand::Unknown);
    assert_eq!(interpret_key(' '), KeyCommand::Unknown);
    assert_eq!(interpret_key('\n'), KeyCommand::Unknown);
    assert_eq!(interpret_key('J'), KeyCommand::Unknown);
    assert_eq!(interpret_key('Q'), KeyCommand::Unknown);
}

#[test]
fn new_browser_starts_at_the_top() {
    let b = Browser::new(listing(&["a.txt", "b.txt", "c.txt"]));
    assert_eq!(b.selected_index(), 0);
    assert_eq!(b.entries(), &listing(&["a.txt", "b.txt", "c.txt"]));
}

#[test]
fn move_down_saturates_at_the_last_entry() {
    let mut b = Browser::new(listing(&["a.txt", "b.txt"]));
    b.move_down();
    assert_eq!(b.selected_index(), 1);
    b.move_down();
    assert_eq!(b.selected_index(), 1);
}

#[test]
fn move_up_saturates_at_zero() {
    let mut b = Browser::new(listing(&["a.txt", "b.txt"]));
    b.move_up();
    assert_eq!(b.selected_index(), 0);
    b.move_down();
    b.move_up();
    assert_eq!(b.selected_index(), 0);
    b.move_up();
    assert_eq!(b.selected_index(), 0);
}

#[test]
fn navigation_stays_in_range_over_a_long_command_sequence() {
    let mut b = Browser::new(listing(&["a.txt", "b.txt", "c.txt"]));
    let keys = ['j', 'j', 'j', 'j', 'k', 'j', 'k', 'k', 'k', 'k', 'j'];
    for key in keys {
        b.apply(interpret_key(key));
        assert!(b.selected_index() < b.entries().len());
    }
}

#[test]
fn navigation_on_an_empty_listing_stays_at_zero() {
    let mut b = Browser::new(Vec::new());
    b.move_down();
    assert_eq!(b.selected_index(), 0);
    b.move_up();
    assert_eq!(b.selected_index(), 0);
    assert_eq!(b.selected_name(), None);
}

#[test]
fn selected_name_follows_the_selection() {
    let mut b = Browser::new(listing(&["a.txt", "b.txt"]));
    assert_eq!(b.selected_name(), Some("a.txt".to_string()));
    b.move_down();
    assert_eq!(b.selected_name(), Some("b.txt".to_string()));
}

#[test]
fn scenario_move_select_quit() {
    let mut b = Browser::new(listing(&["a.txt", "b.txt"]));
    assert_eq!(b.selected_index(), 0);
    let act = b.apply(KeyCommand::MoveDown);
    assert!(matches!(act, BrowserAction::Continue));
    assert_eq!(b.selected_index(), 1);
    let act = b.apply(KeyCommand::MoveDown);
    assert!(matches!(act, BrowserAction::Continue));
    assert_eq!(b.selected_index(), 1);
    let act = b.apply(KeyCommand::Select);
    match act {
        BrowserAction::Report(name) => assert_eq!(name, "b.txt"),
        other => panic!("expected a report, got {:?}", other),
    }
    let act = b.apply(KeyCommand::Quit);
    assert!(matches!(act, BrowserAction::Quit));
}

#[test]
fn scenario_create_file_refreshes_the_listing() {
    let mut b = Browser::new(listing(&["a.txt"]));
    let act = b.apply(KeyCommand::CreateFile);
    assert!(matches!(act, BrowserAction::PromptCreate));
    assert_eq!(b.entries(), &listing(&["a.txt"]));
    b.refresh(listing(&["a.txt", "b.txt"]));
    assert_eq!(b.entries(), &listing(&["a.txt", "b.txt"]));
    let created = b.entries().iter().filter(|n| n.as_str() == "b.txt").count();
    assert_eq!(created, 1);
    assert_eq!(b.selected_index(), 0);
}

#[test]
fn refresh_keeps_a_still_valid_selection() {
    let mut b = Browser::new(listing(&["a.txt", "b.txt"]));
    b.move_down();
    b.refresh(listing(&["a.txt", "b.txt", "c.txt"]));
    assert_eq!(b.selected_index(), 1);
}

#[test]
fn refresh_resets_an_out_of_range_selection_to_the_top() {
    let mut b = Browser::new(listing(&["a.txt", "b.txt", "c.txt"]));
    b.move_down();
    b.move_down();
    b.refresh(listing(&["a.txt", "b.txt"]));
    assert_eq!(b.selected_index(), 0);
    b.refresh(Vec::new());
    assert_eq!(b.selected_index(), 0);
}

#[test]
fn apply_on_unknown_key_changes_nothing() {
    let mut b = Browser::new(listing(&["a.txt", "b.txt"]));
    b.move_down();
    let act = b.apply(KeyCommand::Unknown);
    assert!(matches!(act, BrowserAction::Continue));
    assert_eq!(b.selected_index(), 1);
    assert_eq!(b.entries(), &listing(&["a.txt", "b.txt"]));
}

#[test]
fn select_on_an_empty_listing_reports_nothing() {
    let mut b = Browser::new(Vec::new());
    let act = b.apply(KeyCommand::Select);
    assert!(matches!(act, BrowserAction::Continue));
}

#[test]
fn render_marks_exactly_the_selected_entry() {
    let mut b = Browser::new(listing(&["a.txt", "b.txt", "c.txt"]));
    b.move_down();
    let lines = b.render_lines();
    assert_eq!(lines, vec!["  a.txt", "> b.txt", "  c.txt"]);
    let marked = lines.iter().filter(|l| l.starts_with("> ")).count();
    assert_eq!(marked, 1);
}

#[test]
fn render_of_an_empty_listing_is_empty() {
    let b = Browser::new(Vec::new());
    assert!(b.render_lines().is_empty());
}
