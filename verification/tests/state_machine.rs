//! Scenario tests driving the dispatcher and inspecting the state.

use toodles::dispatch;
use toodles::AppState;
use toodles::Key;
use toodles::Mode;

fn state_with_items(descriptions: &[&str]) -> AppState {
    let mut state = AppState::new();
    for d in descriptions {
        state.append(d.to_string());
    }
    state
}

fn type_text(state: &mut AppState, text: &str) {
    for c in text.chars() {
        let quit = dispatch(state, Key::Char(c));
        assert!(!quit);
    }
}

#[test]
fn compose_and_submit_creates_item() {
    let mut state = AppState::new();
    assert!(state.items.is_empty());

    let quit = dispatch(&mut state, Key::Char('A'));
    assert!(!quit);
    assert_eq!(state.mode, Mode::Compose);

    type_text(&mut state, "Buy milk");
    assert_eq!(state.input, "Buy milk");

    let quit = dispatch(&mut state, Key::Enter);
    assert!(!quit);
    assert_eq!(state.mode, Mode::Browse);
    assert_eq!(state.input, "");
    assert_eq!(state.items.len(), 1);
    assert_eq!(state.items[0].description, "Buy milk");
    assert!(!state.items[0].is_done);
}

#[test]
fn delete_revalidates_cursor_in_middle() {
    let mut state = state_with_items(&["one", "two", "three"]);
    state.selected = Some(1);

    let quit = dispatch(&mut state, Key::Char('D'));
    assert!(!quit);
    assert_eq!(state.items.len(), 2);
    assert_eq!(state.items[0].description, "one");
    assert_eq!(state.items[1].description, "three");
    assert_eq!(state.selected, Some(1));
}

#[test]
fn delete_last_entry_moves_cursor_to_new_last() {
    let mut state = state_with_items(&["one", "two", "three"]);
    state.selected = Some(2);

    dispatch(&mut state, Key::Char('D'));
    assert_eq!(state.items.len(), 2);
    assert_eq!(state.selected, Some(1));
}

#[test]
fn delete_only_entry_clears_cursor() {
    let mut state = state_with_items(&["lonely"]);
    state.selected = Some(0);

    dispatch(&mut state, Key::Char('D'));
    assert!(state.items.is_empty());
    assert_eq!(state.selected, None);
}

#[test]
fn delete_with_out_of_range_cursor_is_noop() {
    let mut state = state_with_items(&["one", "two"]);
    state.selected = Some(5);
    let before = state.clone();

    let quit = dispatch(&mut state, Key::Char('D'));
    assert!(!quit);
    assert_eq!(state, before, "nothing was removed, so nothing changes — the cursor included");
}

#[test]
fn delete_without_selection_is_noop() {
    let mut state = state_with_items(&["one", "two"]);
    let before = state.clone();

    dispatch(&mut state, Key::Char('D'));
    assert_eq!(state, before);
}

#[test]
fn toggle_without_selection_is_noop() {
    let mut state = state_with_items(&["one", "two"]);
    let before = state.clone();

    let quit = dispatch(&mut state, Key::Enter);
    assert!(!quit);
    assert_eq!(state, before);
}

#[test]
fn toggle_is_its_own_inverse() {
    let mut state = state_with_items(&["task"]);
    state.selected = Some(0);

    dispatch(&mut state, Key::Enter);
    assert!(state.items[0].is_done);

    dispatch(&mut state, Key::Enter);
    assert!(!state.items[0].is_done);
}

#[test]
fn cancel_discards_buffer_and_creates_no_item() {
    let mut state = state_with_items(&["kept"]);
    dispatch(&mut state, Key::Char('A'));
    type_text(&mut state, "abc");
    assert_eq!(state.input, "abc");

    let quit = dispatch(&mut state, Key::Esc);
    assert!(!quit);
    assert_eq!(state.mode, Mode::Browse);
    assert_eq!(state.input, "");
    assert_eq!(state.items.len(), 1);
    assert_eq!(state.items[0].description, "kept");
}

#[test]
fn submit_with_empty_buffer_is_suppressed() {
    let mut state = AppState::new();
    dispatch(&mut state, Key::Char('A'));

    let quit = dispatch(&mut state, Key::Enter);
    assert!(!quit);
    assert_eq!(state.mode, Mode::Browse);
    assert!(state.items.is_empty());
    assert_eq!(state.input, "");
}

#[test]
fn backspace_edits_buffer_and_is_noop_when_empty() {
    let mut state = AppState::new();
    dispatch(&mut state, Key::Char('A'));

    dispatch(&mut state, Key::Backspace);
    assert_eq!(state.input, "");

    type_text(&mut state, "ab");
    dispatch(&mut state, Key::Backspace);
    assert_eq!(state.input, "a");
    assert_eq!(state.mode, Mode::Compose);
}

#[test]
fn entering_compose_clears_buffer() {
    let mut state = AppState::new();
    dispatch(&mut state, Key::Char('A'));
    assert_eq!(state.mode, Mode::Compose);
    assert_eq!(state.input, "");
}

#[test]
fn compose_keys_do_not_touch_list_or_mode() {
    let mut state = state_with_items(&["one"]);
    state.selected = Some(0);
    dispatch(&mut state, Key::Char('A'));

    // Browse commands are plain text while composing.
    type_text(&mut state, "DjkA");
    assert_eq!(state.mode, Mode::Compose);
    assert_eq!(state.input, "DjkA");
    assert_eq!(state.items.len(), 1);
    assert_eq!(state.selected, Some(0));
}

#[test]
fn navigation_moves_and_clamps() {
    let mut state = state_with_items(&["one", "two", "three"]);
    assert_eq!(state.selected, None);

    dispatch(&mut state, Key::Char('j'));
    assert_eq!(state.selected, Some(0));
    dispatch(&mut state, Key::Char('j'));
    assert_eq!(state.selected, Some(1));
    dispatch(&mut state, Key::Char('j'));
    assert_eq!(state.selected, Some(2));
    dispatch(&mut state, Key::Char('j'));
    assert_eq!(state.selected, Some(2), "clamped at the last entry");

    dispatch(&mut state, Key::Char('k'));
    assert_eq!(state.selected, Some(1));
    dispatch(&mut state, Key::Char('k'));
    assert_eq!(state.selected, Some(0));
    dispatch(&mut state, Key::Char('k'));
    assert_eq!(state.selected, Some(0), "clamped at the first entry");
}

#[test]
fn navigation_without_selection_picks_an_end() {
    let mut state = state_with_items(&["one", "two"]);
    dispatch(&mut state, Key::Char('k'));
    assert_eq!(state.selected, Some(1), "moving up from nothing selects the last entry");

    let mut state = state_with_items(&["one", "two"]);
    dispatch(&mut state, Key::Char('j'));
    assert_eq!(state.selected, Some(0), "moving down from nothing selects the first entry");
}

#[test]
fn navigation_on_empty_list_is_noop() {
    let mut state = AppState::new();
    dispatch(&mut state, Key::Char('j'));
    assert_eq!(state.selected, None);
    dispatch(&mut state, Key::Char('k'));
    assert_eq!(state.selected, None);
}

#[test]
fn escape_in_browse_quits() {
    let mut state = state_with_items(&["one"]);
    let before = state.clone();
    let quit = dispatch(&mut state, Key::Esc);
    assert!(quit);
    assert_eq!(state, before);
}

#[test]
fn unmapped_keys_are_noops() {
    let mut state = state_with_items(&["one"]);
    state.selected = Some(0);
    let before = state.clone();

    assert!(!dispatch(&mut state, Key::Char('x')));
    assert!(!dispatch(&mut state, Key::Backspace));
    assert!(!dispatch(&mut state, Key::Other));
    assert_eq!(state, before);
}

#[test]
fn cursor_stays_valid_over_a_long_key_sequence() {
    let mut state = AppState::new();
    let keys = [
        Key::Char('A'),
        Key::Char('a'),
        Key::Enter,
        Key::Char('j'),
        Key::Char('A'),
        Key::Char('b'),
        Key::Enter,
        Key::Char('j'),
        Key::Char('j'),
        Key::Enter,
        Key::Char('D'),
        Key::Char('D'),
        Key::Char('k'),
        Key::Char('D'),
        Key::Char('j'),
        Key::Char('k'),
    ];
    for key in keys {
        dispatch(&mut state, key);
        if let Some(i) = state.selected {
            assert!(i < state.items.len(), "cursor {} out of range {}", i, state.items.len());
        }
    }
}
