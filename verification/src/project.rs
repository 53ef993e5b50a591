//! The view projector: a pure function from the application state to a
//! renderable layout. It never mutates the state and does no I/O; the
//! embedding program turns the layout into terminal drawing calls.

use vstd::prelude::*;

use crate::state::AppState;
use crate::state::AppStateView;
use crate::state::Mode;

verus! {

/// One displayed list entry: its text, whether it is marked done (to
/// be visually distinguished, e.g. struck through), and whether it is
/// the selected entry (to be highlighted and prefixed with an
/// indicator glyph).
#[derive(Debug, Clone, PartialEq, Eq)]
pub struct Row {
    pub text: String,
    pub is_done: bool,
    pub is_selected: bool,
}

/// Mathematical model of a [`Row`].
#[verifier::ext_equal]
pub ghost struct RowView {
    pub text: Seq<char>,
    pub is_done: bool,
    pub is_selected: bool,
}

impl View for Row {
    type V = RowView;

    open spec fn view(&self) -> RowView {
        RowView { text: self.text@, is_done: self.is_done, is_selected: self.is_selected }
    }
}

/// The renderable layout: the titled input box while composing, or the
/// titled item list while browsing. Either is drawn inside an outer
/// frame with a margin of one cell on each side.
#[derive(Debug, Clone, PartialEq, Eq)]
pub enum Layout {
    ComposeForm { input: String },
    BrowseList { rows: Vec<Row> },
}

/// Mathematical model of a [`Layout`].
#[verifier::ext_equal]
pub ghost enum LayoutView {
    ComposeForm { input: Seq<char> },
    BrowseList { rows: Seq<RowView> },
}

impl View for Layout {
    type V = LayoutView;

    open spec fn view(&self) -> LayoutView {
        match self {
            Layout::ComposeForm { input } => LayoutView::ComposeForm { input: input@ },
            Layout::BrowseList { rows } => LayoutView::BrowseList {
                rows: Seq::new(rows@.len(), |i: int| rows@[i]@),
            },
        }
    }
}

/// The row that the item at `index` projects to: its description, its
/// completion flag, and whether the cursor rests on it.
pub open spec fn spec_row(s: AppStateView, index: int) -> RowView {
    RowView {
        text: s.items[index].description,
        is_done: s.items[index].is_done,
        is_selected: s.selected == Some(index),
    }
}

/// What the state projects to: in compose mode the input box showing
/// the buffer verbatim, in browse mode one row per item in list order.
pub open spec fn spec_project(s: AppStateView) -> LayoutView {
    match s.mode {
        Mode::Compose => LayoutView::ComposeForm { input: s.input },
        Mode::Browse => LayoutView::BrowseList {
            rows: Seq::new(s.items.len(), |i: int| spec_row(s, i)),
        },
    }
}

/// The title of the box a layout is rendered in.
pub open spec fn spec_title(l: LayoutView) -> Seq<char> {
    match l {
        LayoutView::ComposeForm { .. } => " Input Description "@,
        LayoutView::BrowseList { .. } => " Toodles "@,
    }
}

impl Layout {
    /// The title of the box this layout is rendered in.
    pub fn title(&self) -> (r: &'static str)
        ensures
            r@ == spec_title(self@),
    {
        match self {
            Layout::ComposeForm { .. } => " Input Description ",
            Layout::BrowseList { .. } => " Toodles ",
        }
    }
}

/// Projects the state into a renderable layout. Reads the state only:
/// a pure function, so two projections of the same state are identical.
pub fn project(app_state: &AppState) -> (l: Layout)
    ensures
        l@ == spec_project(app_state@),
{
    match app_state.mode {
        Mode::Compose => Layout::ComposeForm { input: app_state.input.clone() },
        Mode::Browse => {
            let n = app_state.items.len();
            let mut rows: Vec<Row> = Vec::new();
            let mut idx: usize = 0;
            while idx < n
                invariant
                    n == app_state.items.len(),
                    idx <= n,
                    rows@.len() == idx,
                    forall|j: int| 0 <= j < idx ==> rows@[j]@ == spec_row(app_state@, j),
                decreases n - idx,
            {
                let item = &app_state.items[idx];
                let is_selected = match app_state.selected {
                    Some(s) => s == idx,
                    None => false,
                };
                rows.push(Row { text: item.description.clone(), is_done: item.is_done, is_selected });
                idx += 1;
            }
            let l = Layout::BrowseList { rows };
            proof {
                assert(l@ =~~= spec_project(app_state@));
            }
            l
        },
    }
}

} // verus!
