//! The application state: the ordered list of todo items, the optional
//! selection cursor, the input buffer and the current mode, together
//! with the item-store and cursor operations.

use vstd::prelude::*;

verus! {

/// One todo entry: a description and a completion flag.
#[derive(Debug, Clone, PartialEq, Eq)]
pub struct TodoItem {
    pub description: String,
    pub is_done: bool,
}

/// Mathematical model of a [`TodoItem`].
#[verifier::ext_equal]
pub ghost struct TodoItemView {
    pub description: Seq<char>,
    pub is_done: bool,
}

impl View for TodoItem {
    type V = TodoItemView;

    open spec fn view(&self) -> TodoItemView {
        TodoItemView { description: self.description@, is_done: self.is_done }
    }
}

/// Which keystroke handler is active: navigating the list, or typing
/// the description of a new entry.
#[derive(Debug, Clone, Copy, PartialEq, Eq)]
pub enum Mode {
    Browse,
    Compose,
}

/// The whole application state: the single owner of the item list, the
/// selection cursor, the input buffer and the mode.
#[derive(Debug, Clone, PartialEq, Eq)]
pub struct AppState {
    pub items: Vec<TodoItem>,
    pub selected: Option<usize>,
    pub input: String,
    pub mode: Mode,
}

/// Mathematical model of an [`AppState`].
#[verifier::ext_equal]
pub ghost struct AppStateView {
    pub items: Seq<TodoItemView>,
    pub selected: Option<int>,
    pub input: Seq<char>,
    pub mode: Mode,
}

impl View for AppState {
    type V = AppStateView;

    open spec fn view(&self) -> AppStateView {
        AppStateView {
            items: Seq::new(self.items@.len(), |i: int| self.items@[i]@),
            selected: match self.selected {
                Some(i) => Some(i as int),
                None => None,
            },
            input: self.input@,
            mode: self.mode,
        }
    }
}

impl AppStateView {
    /// Well-formedness: a set selection cursor points inside the list.
    pub open spec fn wf(self) -> bool {
        self.selected matches Some(i) ==> 0 <= i < self.items.len()
    }

    /// The state a fresh application starts in: no items, no selection,
    /// an empty input buffer, browse mode.
    pub open spec fn initial() -> AppStateView {
        AppStateView {
            items: Seq::empty(),
            selected: None,
            input: Seq::empty(),
            mode: Mode::Browse,
        }
    }

    /// Appending a new, not-yet-done item at the end of the list.
    pub open spec fn append(self, description: Seq<char>) -> AppStateView {
        AppStateView {
            items: self.items.push(TodoItemView { description, is_done: false }),
            ..self
        }
    }

    /// Removing the item at `index`; out-of-range indices leave the
    /// state unchanged.
    pub open spec fn remove_at(self, index: int) -> AppStateView {
        if 0 <= index < self.items.len() {
            AppStateView { items: self.items.remove(index), ..self }
        } else {
            self
        }
    }

    /// Flipping the completion flag of the item at `index`;
    /// out-of-range indices leave the state unchanged.
    pub open spec fn toggle_done_at(self, index: int) -> AppStateView {
        if 0 <= index < self.items.len() {
            AppStateView {
                items: self.items.update(
                    index,
                    TodoItemView { is_done: !self.items[index].is_done, ..self.items[index] },
                ),
                ..self
            }
        } else {
            self
        }
    }

    /// Moving the selection one entry down, clamped at the last entry;
    /// with no selection yet the first entry is selected. A no-op on an
    /// empty list.
    pub open spec fn select_next(self) -> AppStateView {
        if self.items.len() == 0 {
            self
        } else {
            let sel = match self.selected {
                None => 0int,
                Some(i) => if i >= self.items.len() - 1 {
                    self.items.len() - 1
                } else {
                    i + 1
                },
            };
            AppStateView { selected: Some(sel), ..self }
        }
    }

    /// Moving the selection one entry up, clamped at the first entry;
    /// with no selection yet the last entry is selected. A no-op on an
    /// empty list.
    pub open spec fn select_previous(self) -> AppStateView {
        if self.items.len() == 0 {
            self
        } else {
            let sel = match self.selected {
                None => self.items.len() - 1,
                Some(i) => {
                    let up = if i <= 0 { 0int } else { i - 1 };
                    if up >= self.items.len() {
                        self.items.len() - 1
                    } else {
                        up
                    }
                },
            };
            AppStateView { selected: Some(sel), ..self }
        }
    }

    /// Re-validating the cursor after the item at `removed_index` was
    /// removed: selection of the removed last entry moves to the new
    /// last entry (or away entirely when the list became empty), a
    /// cursor past the removal point shifts down by one, and a cursor
    /// before it is untouched.
    pub open spec fn invalidate_after_removal(self, removed_index: int) -> AppStateView {
        match self.selected {
            None => self,
            Some(c) => {
                if self.items.len() == 0 {
                    AppStateView { selected: None, ..self }
                } else if c == removed_index {
                    if c >= self.items.len() {
                        AppStateView { selected: Some(self.items.len() - 1), ..self }
                    } else {
                        self
                    }
                } else if c > removed_index {
                    AppStateView { selected: Some(c - 1), ..self }
                } else {
                    self
                }
            },
        }
    }
}

impl AppState {
    /// A fresh application state: empty list, no selection, empty
    /// input buffer, browse mode.
    pub fn new() -> (s: AppState)
        ensures
            s@ == AppStateView::initial(),
    {
        let s = AppState {
            items: Vec::new(),
            selected: None,
            input: String::new(),
            mode: Mode::Browse,
        };
        proof {
            assert(s@.items =~= Seq::<TodoItemView>::empty());
        }
        s
    }

    /// Inserts a new item with the given description, not yet done, at
    /// the end of the list. Always succeeds; empty descriptions are
    /// permitted.
    pub fn append(&mut self, description: String)
        ensures
            final(self)@ == old(self)@.append(description@),
    {
        let ghost d = description@;
        self.items.push(TodoItem { description, is_done: false });
        proof {
            assert(self@ =~= old(self)@.append(d));
        }
    }

    /// Removes the item at `index`, shifting later items down by one;
    /// a no-op when `index` is out of range.
    pub fn remove_at(&mut self, index: usize)
        ensures
            final(self)@ == old(self)@.remove_at(index as int),
    {
        if index < self.items.len() {
            self.items.remove(index);
            proof {
                assert(self@ =~= old(self)@.remove_at(index as int));
            }
        }
    }

    /// Flips the completion flag of the item at `index`; a no-op when
    /// `index` is out of range.
    pub fn toggle_done_at(&mut self, index: usize)
        ensures
            final(self)@ == old(self)@.toggle_done_at(index as int),
    {
        if index < self.items.len() {
            let flipped = TodoItem {
                description: self.items[index].description.clone(),
                is_done: !self.items[index].is_done,
            };
            self.items.set(index, flipped);
            proof {
                assert(self@ =~= old(self)@.toggle_done_at(index as int));
            }
        }
    }

    /// Returns the item at `index`, or nothing when `index` is out of
    /// range.
    pub fn get(&self, index: usize) -> (r: Option<&TodoItem>)
        ensures
            match r {
                Some(item) => index < self@.items.len() && item@ == self@.items[index as int],
                None => index >= self@.items.len(),
            },
    {
        if index < self.items.len() {
            Some(&self.items[index])
        } else {
            None
        }
    }

    /// Moves the selection one entry down (clamped at the last entry;
    /// the first entry when nothing was selected). A no-op on an empty
    /// list.
    pub fn select_next(&mut self)
        ensures
            final(self)@ == old(self)@.select_next(),
    {
        let len = self.items.len();
        if len > 0 {
            let sel: usize = match self.selected {
                None => 0,
                Some(i) => if i >= len - 1 {
                    len - 1
                } else {
                    i + 1
                },
            };
            self.selected = Some(sel);
        }
    }

    /// Moves the selection one entry up (clamped at the first entry;
    /// the last entry when nothing was selected). A no-op on an empty
    /// list.
    pub fn select_previous(&mut self)
        ensures
            final(self)@ == old(self)@.select_previous(),
    {
        let len = self.items.len();
        if len > 0 {
            let sel: usize = match self.selected {
                None => len - 1,
                Some(i) => {
                    let up: usize = if i == 0 {
                        0
                    } else {
                        i - 1
                    };
                    if up >= len {
                        len - 1
                    } else {
                        up
                    }
                },
            };
            self.selected = Some(sel);
        }
    }

    /// Re-validates the cursor after the item at `removed_index` was
    /// removed, as [`AppStateView::invalidate_after_removal`] states.
    pub fn invalidate_after_removal(&mut self, removed_index: usize)
        ensures
            final(self)@ == old(self)@.invalidate_after_removal(removed_index as int),
    {
        match self.selected {
            None => {},
            Some(c) => {
                let len = self.items.len();
                if len == 0 {
                    self.selected = None;
                } else if c == removed_index {
                    if c >= len {
                        self.selected = Some(len - 1);
                    }
                } else if c > removed_index {
                    self.selected = Some(c - 1);
                }
            },
        }
    }
}

} // verus!
