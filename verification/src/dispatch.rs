//! The input dispatcher: maps one keystroke plus the current mode to a
//! state mutation or a mode transition. Every dispatch operation is
//! total: out-of-range indices, empty buffers and empty lists are
//! handled as no-ops, never as errors.

use vstd::prelude::*;

use crate::state::AppState;
use crate::state::AppStateView;
use crate::state::Mode;

verus! {

/// The keystrokes the dispatcher distinguishes. Every other event kind
/// the embedding program may see is fed in as `Other` and ignored.
#[derive(Debug, Clone, Copy, PartialEq, Eq)]
pub enum Key {
    Char(char),
    Enter,
    Esc,
    Backspace,
    Other,
}

/// What a keystroke in compose mode asks for beyond buffer editing.
#[derive(Debug, Clone, Copy, PartialEq, Eq)]
pub enum FormAction {
    Stay,
    Submit,
    Cancel,
}

/// Relies on `String::push`: appends the given character to the end of
/// the string.
#[verifier::external_body]
fn push_char(s: &mut String, c: char)
    ensures
        final(s)@ == old(s)@.push(c),
{
    s.push(c);
}

/// The form action a compose-mode keystroke asks for: enter submits,
/// escape cancels, everything else only edits the buffer (or nothing).
pub open spec fn spec_form_action(key: Key) -> FormAction {
    match key {
        Key::Enter => FormAction::Submit,
        Key::Esc => FormAction::Cancel,
        _ => FormAction::Stay,
    }
}

/// How a compose-mode keystroke edits the input buffer: a printable
/// character is appended, backspace drops the last character (a no-op
/// on an empty buffer), and every other key leaves it alone.
pub open spec fn spec_edit_input(s: AppStateView, key: Key) -> AppStateView {
    match key {
        Key::Char(c) => AppStateView { input: s.input.push(c), ..s },
        Key::Backspace => if s.input.len() > 0 {
            AppStateView { input: s.input.drop_last(), ..s }
        } else {
            s
        },
        _ => s,
    }
}

/// One keystroke in compose mode: buffer editing, or the submit or
/// cancel transition back to browse mode. Submitting a non-empty
/// buffer appends a new item built from it; submitting an empty buffer
/// creates no item (empty submissions are suppressed). Either
/// transition clears the buffer.
pub open spec fn spec_compose_step(s: AppStateView, key: Key) -> AppStateView {
    match spec_form_action(key) {
        FormAction::Stay => spec_edit_input(s, key),
        FormAction::Submit => {
            let appended = if s.input.len() > 0 {
                s.append(s.input)
            } else {
                s
            };
            AppStateView { input: Seq::empty(), mode: Mode::Browse, ..appended }
        },
        FormAction::Cancel => AppStateView { input: Seq::empty(), mode: Mode::Browse, ..s },
    }
}

/// One keystroke in browse mode: the next state and whether the quit
/// key was pressed. Enter toggles the selected item, `j`/`k` move the
/// selection, `D` deletes the selected item and re-validates the
/// cursor, `A` enters compose mode with a cleared buffer, and escape
/// quits. A delete whose cursor is out of range removes nothing and,
/// like every out-of-range index, is a complete no-op: the cursor is
/// re-validated only after an actual removal.
pub open spec fn spec_browse_step(s: AppStateView, key: Key) -> (AppStateView, bool) {
    match key {
        Key::Enter => {
            let next = match s.selected {
                Some(i) => s.toggle_done_at(i),
                None => s,
            };
            (next, false)
        },
        Key::Esc => (s, true),
        Key::Char(c) => {
            if c == 'A' {
                (AppStateView { mode: Mode::Compose, input: Seq::empty(), ..s }, false)
            } else if c == 'D' {
                let next = match s.selected {
                    Some(i) => if 0 <= i < s.items.len() {
                        s.remove_at(i).invalidate_after_removal(i)
                    } else {
                        s
                    },
                    None => s,
                };
                (next, false)
            } else if c == 'k' {
                (s.select_previous(), false)
            } else if c == 'j' {
                (s.select_next(), false)
            } else {
                (s, false)
            }
        },
        _ => (s, false),
    }
}

/// One keystroke against the whole state machine: the handler of the
/// active mode runs, and only browse mode can ask to quit.
pub open spec fn spec_dispatch(s: AppStateView, key: Key) -> (AppStateView, bool) {
    match s.mode {
        Mode::Compose => (spec_compose_step(s, key), false),
        Mode::Browse => spec_browse_step(s, key),
    }
}

/// Handles one keystroke while composing: edits the input buffer and
/// reports whether the keystroke asks to submit or cancel the form.
pub fn handle_add_new(key: Key, app_state: &mut AppState) -> (action: FormAction)
    ensures
        action == spec_form_action(key),
        final(app_state)@ == spec_edit_input(old(app_state)@, key),
{
    match key {
        Key::Char(c) => {
            push_char(&mut app_state.input, c);
            proof {
                assert(app_state@ =~= spec_edit_input(old(app_state)@, key));
            }
            FormAction::Stay
        },
        Key::Backspace => {
            let n = app_state.input.as_str().unicode_len();
            if n > 0 {
                let shorter = app_state.input.as_str().substring_char(0, n - 1).to_owned();
                app_state.input = shorter;
                proof {
                    assert(app_state@.input =~= old(app_state)@.input.drop_last());
                    assert(app_state@ =~= spec_edit_input(old(app_state)@, key));
                }
            }
            FormAction::Stay
        },
        Key::Enter => FormAction::Submit,
        Key::Esc => FormAction::Cancel,
        Key::Other => FormAction::Stay,
    }
}

/// Handles one keystroke while browsing; returns true when the
/// keystroke asks to quit.
pub fn handle_key(key: Key, app_state: &mut AppState) -> (quit: bool)
    ensures
        final(app_state)@ == spec_browse_step(old(app_state)@, key).0,
        quit == spec_browse_step(old(app_state)@, key).1,
{
    match key {
        Key::Enter => {
            match app_state.selected {
                Some(index) => app_state.toggle_done_at(index),
                None => {},
            }
            false
        },
        Key::Esc => true,
        Key::Char(c) => {
            if c == 'A' {
                app_state.mode = Mode::Compose;
                app_state.input = String::new();
            } else if c == 'D' {
                match app_state.selected {
                    Some(index) => {
                        if index < app_state.items.len() {
                            app_state.remove_at(index);
                            app_state.invalidate_after_removal(index);
                        }
                    },
                    None => {},
                }
            } else if c == 'k' {
                app_state.select_previous();
            } else if c == 'j' {
                app_state.select_next();
            }
            false
        },
        _ => false,
    }
}

/// Dispatches one keystroke against the whole state machine; returns
/// true when the application should quit. Total over every state: it
/// never fails or panics.
pub fn dispatch(app_state: &mut AppState, key: Key) -> (quit: bool)
    ensures
        final(app_state)@ == spec_dispatch(old(app_state)@, key).0,
        quit == spec_dispatch(old(app_state)@, key).1,
{
    match app_state.mode {
        Mode::Compose => {
            match handle_add_new(key, app_state) {
                FormAction::Stay => {},
                FormAction::Submit => {
                    app_state.mode = Mode::Browse;
                    if app_state.input.as_str().unicode_len() > 0 {
                        let description = app_state.input.clone();
                        app_state.append(description);
                    }
                    app_state.input = String::new();
                    proof {
                        assert(app_state@ =~= spec_dispatch(old(app_state)@, key).0);
                    }
                },
                FormAction::Cancel => {
                    app_state.mode = Mode::Browse;
                    app_state.input = String::new();
                    proof {
                        assert(app_state@ =~= spec_dispatch(old(app_state)@, key).0);
                    }
                },
            }
            false
        },
        Mode::Browse => handle_key(key, app_state),
    }
}

} // verus!
