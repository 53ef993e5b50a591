//! The guarantees the state machine gives across its operations:
//! cursor validity survives any sequence of dispatches, every mode
//! transition leaves the input buffer empty, and projection is a pure
//! function of the state.

use vstd::prelude::*;

use crate::dispatch::Key;
use crate::dispatch::spec_dispatch;
use crate::project::LayoutView;
use crate::project::spec_project;
use crate::state::AppStateView;

verus! {

/// The state after dispatching a whole sequence of keystrokes, first
/// to last.
pub open spec fn spec_dispatch_seq(s: AppStateView, keys: Seq<Key>) -> AppStateView
    decreases keys.len(),
{
    if keys.len() == 0 {
        s
    } else {
        spec_dispatch_seq(spec_dispatch(s, keys[0]).0, keys.drop_first())
    }
}

/// One dispatch keeps the cursor valid: from a state whose selection
/// (if set) lies inside the list, any keystroke leads to such a state
/// again.
pub proof fn lemma_dispatch_preserves_cursor_valid(s: AppStateView, key: Key)
    requires
        s.wf(),
    ensures
        spec_dispatch(s, key).0.wf(),
{
}

/// Cursor validity over time: after any sequence of dispatches from a
/// well-formed state, a set selection cursor still points inside the
/// list.
pub proof fn lemma_dispatch_seq_preserves_cursor_valid(s: AppStateView, keys: Seq<Key>)
    requires
        s.wf(),
    ensures
        spec_dispatch_seq(s, keys).wf(),
    decreases keys.len(),
{
    if keys.len() > 0 {
        lemma_dispatch_preserves_cursor_valid(s, keys[0]);
        lemma_dispatch_seq_preserves_cursor_valid(spec_dispatch(s, keys[0]).0, keys.drop_first());
    }
}

/// Every mode transition clears the input buffer: whenever a dispatch
/// changes the mode — entering compose as much as submitting or
/// cancelling out of it — the buffer of the new state is empty.
pub proof fn lemma_transition_clears_input(s: AppStateView, key: Key)
    ensures
        spec_dispatch(s, key).0.mode != s.mode ==> spec_dispatch(s, key).0.input.len() == 0,
{
}

/// Toggling is its own inverse: flipping the completion flag of the
/// same item twice restores the state exactly.
pub proof fn lemma_toggle_involutive(s: AppStateView, index: int)
    ensures
        s.toggle_done_at(index).toggle_done_at(index) == s,
{
    assert(s.toggle_done_at(index).toggle_done_at(index) =~~= s);
}

/// Projection is pure: two layouts projected from the same state are
/// identical.
pub proof fn lemma_project_pure(s: AppStateView, l1: LayoutView, l2: LayoutView)
    requires
        l1 == spec_project(s),
        l2 == spec_project(s),
    ensures
        l1 == l2,
{
}

} // verus!
