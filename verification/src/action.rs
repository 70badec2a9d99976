//! The immutable intent values routed through the update loop.

use vstd::prelude::*;

verus! {

/// An intent produced by input mapping or by a pane's own update step and
/// consumed exactly once by the routing target. `Update` asks every pane
/// to resynchronize its render cache with the shared navigation state.
#[derive(Clone, Copy, Debug, PartialEq, Eq, Structural)]
pub enum Action {
    Up,
    Down,
    Submit,
    Update,
}

/// A key press, as the controller reads it: the keys the viewer acts
/// on, and `Other` for the rest.
#[derive(Clone, Copy, Debug, PartialEq, Eq, Structural)]
pub enum KeyCode {
    Up,
    Down,
    Enter,
    Other,
}

/// A key input event.
#[derive(Clone, Copy, Debug, PartialEq, Eq, Structural)]
pub struct KeyEvent {
    pub code: KeyCode,
}

/// A mouse input event: the scroll directions the viewer acts on, and
/// `Other` for the rest.
#[derive(Clone, Copy, Debug, PartialEq, Eq, Structural)]
pub enum MouseEvent {
    ScrollUp,
    ScrollDown,
    Other,
}

/// What one action does to a scroll cursor over a cache of `len` lines:
/// `Down` advances but stays below `len`, `Up` retreats but not below
/// zero, and every other action leaves the cursor alone.
pub open spec fn scroll_step(cursor: nat, len: nat, a: Action) -> nat {
    if a == Action::Down {
        if cursor + 1 < len {
            cursor + 1
        } else if len > 0 {
            (len - 1) as nat
        } else {
            0
        }
    } else if a == Action::Up {
        if cursor > 0 {
            (cursor - 1) as nat
        } else {
            0
        }
    } else {
        cursor
    }
}

/// The cursor after a whole sequence of actions, applied in order.
pub open spec fn run_scroll(cursor: nat, len: nat, acts: Seq<Action>) -> nat
    decreases acts.len(),
{
    if acts.len() == 0 {
        cursor
    } else {
        run_scroll(scroll_step(cursor, len, acts[0]), len, acts.drop_first())
    }
}

/// A cursor is in bounds: below `len` when the cache is nonempty, zero
/// when it is empty.
pub open spec fn cursor_in_bounds(cursor: nat, len: nat) -> bool {
    if len == 0 {
        cursor == 0
    } else {
        cursor < len
    }
}

/// Cursor bound: from any in-bounds cursor, every sequence of actions —
/// in particular any mix of `Up` and `Down` — leaves the cursor in
/// bounds: below the cache length when it is nonzero, and at zero
/// otherwise.
pub proof fn lemma_cursor_bound(cursor: nat, len: nat, acts: Seq<Action>)
    requires
        cursor_in_bounds(cursor, len),
    ensures
        cursor_in_bounds(run_scroll(cursor, len, acts), len),
    decreases acts.len(),
{
    if acts.len() > 0 {
        lemma_cursor_bound(scroll_step(cursor, len, acts[0]), len, acts.drop_first());
    }
}

} // verus!
