//! The application controller: it owns the pane list (tab order), the
//! focused-pane index, and the navigation state, maps input events to
//! actions, routes each action, and broadcasts `Update` so every pane
//! resynchronizes.

use vstd::prelude::*;
use crate::action::Action;
use crate::action::KeyCode;
use crate::action::KeyEvent;
use crate::action::MouseEvent;
use crate::action::scroll_step;
use crate::builder::BuildError;
use crate::builder::rebuild_error_matches;
use crate::builder::rebuild_ok;
use crate::panes::request::RequestPane;
use crate::schema::Document;
use crate::state::State;
use crate::style::Style;

verus! {

/// The controller.
pub struct App {
    pub panes: Vec<RequestPane>,
    pub focused_pane: usize,
    pub state: State,
}

impl App {
    /// Well-formedness: there is at least one pane, the focused index
    /// is valid, exactly the pane at that index is focused, every
    /// cursor is in bounds, and the selection is valid.
    pub open spec fn wf(self) -> bool {
        &&& self.panes@.len() > 0
        &&& (self.focused_pane as int) < self.panes@.len()
        &&& forall|i: int|
            0 <= i < self.panes@.len() ==> ((#[trigger] self.panes@[i]).focused <==> i
                == self.focused_pane)
        &&& forall|i: int| 0 <= i < self.panes@.len() ==> (#[trigger] self.panes@[i]).cursor_ok()
        &&& self.state.wf()
    }

    /// A controller over `document` with `pane_count` panes, the first
    /// focused, nothing selected.
    pub fn new(document: Document, pane_count: usize, focused_border_style: Style) -> (r: App)
        requires
            pane_count > 0,
        ensures
            r.wf(),
            r.focused_pane == 0,
            r.panes@.len() == pane_count,
            r.state.document == document,
            r.state.selected is None,
            forall|j: int|
                0 <= j < pane_count ==> ((#[trigger] r.panes@[j]).focused == (j == 0)
                    && r.panes@[j].focused_border_style == focused_border_style
                    && !r.panes@[j].has_body && r.panes@[j].media_types@.len() == 0
                    && r.panes@[j].request_schema_styles@.len() == 0
                    && r.panes@[j].request_schema_line_offset == 0),
    {
        let mut panes: Vec<RequestPane> = Vec::new();
        let mut i: usize = 0;
        while i < pane_count
            invariant
                i <= pane_count,
                panes@.len() == i,
                forall|j: int| 0 <= j < i ==> (#[trigger] panes@[j]).cursor_ok(),
                forall|j: int|
                    0 <= j < i ==> ((#[trigger] panes@[j]).focused == (j == 0)
                        && panes@[j].focused_border_style == focused_border_style
                        && !panes@[j].has_body && panes@[j].media_types@.len() == 0
                        && panes@[j].request_schema_styles@.len() == 0
                        && panes@[j].request_schema_line_offset == 0),
            decreases pane_count - i,
        {
            let mut pane = RequestPane::new(i == 0, focused_border_style);
            let _prepared = pane.init();
            panes.push(pane);
            i = i + 1;
        }
        App { panes, focused_pane: 0, state: State::new(document) }
    }

    /// Transfer the focus to pane `idx`: the focused pane gives the
    /// focus up, the target takes it, always in that pairing, so
    /// exactly one pane stays focused. Nothing else changes.
    pub fn focus_pane(&mut self, idx: usize)
        requires
            old(self).wf(),
            idx < old(self).panes@.len(),
        ensures
            final(self).wf(),
            final(self).focused_pane == idx,
            final(self).state == old(self).state,
            final(self).panes@.len() == old(self).panes@.len(),
            forall|j: int|
                0 <= j < old(self).panes@.len() ==> #[trigger] final(self).panes@[j] == (
                RequestPane { focused: j == idx, ..old(self).panes@[j] }),
    {
        let cur = self.focused_pane;
        let p = &mut self.panes[cur];
        p.unfocus();
        let q = &mut self.panes[idx];
        q.focus();
        self.focused_pane = idx;
        proof {
            assert forall|j: int| 0 <= j < old(self).panes@.len() implies #[trigger] self.panes@[j]
                == (RequestPane { focused: j == idx, ..old(self).panes@[j] }) by {
                if j != idx && j != cur {
                    assert(self.panes@[j] == old(self).panes@[j]);
                    assert(!old(self).panes@[j].focused);
                }
            }
        }
    }

    /// Transfer the focus to the next pane in tab order, wrapping
    /// around.
    pub fn focus_next(&mut self)
        requires
            old(self).wf(),
        ensures
            final(self).wf(),
            final(self).focused_pane == if old(self).focused_pane + 1 < old(
                self,
            ).panes@.len() {
                old(self).focused_pane + 1
            } else {
                0
            },
            final(self).state == old(self).state,
            final(self).panes@.len() == old(self).panes@.len(),
            forall|j: int|
                0 <= j < old(self).panes@.len() ==> #[trigger] final(self).panes@[j] == (
                RequestPane { focused: j == final(self).focused_pane, ..old(self).panes@[j] }),
    {
        let len = self.panes.len();
        let cur = self.focused_pane;
        let next = if cur + 1 < len {
            cur + 1
        } else {
            0
        };
        self.focus_pane(next);
    }

    /// Map a key event to an intent, conditioned on the focused pane: a
    /// directional key scrolls (every pane here accepts scrolling),
    /// enter submits, anything else is ignored.
    pub fn action_for_key(&self, key: KeyEvent) -> (r: Option<Action>)
        ensures
            r == (match key.code {
                KeyCode::Up => Some(Action::Up),
                KeyCode::Down => Some(Action::Down),
                KeyCode::Enter => Some(Action::Submit),
                KeyCode::Other => None::<Action>,
            }),
    {
        match key.code {
            KeyCode::Up => Some(Action::Up),
            KeyCode::Down => Some(Action::Down),
            KeyCode::Enter => Some(Action::Submit),
            KeyCode::Other => None,
        }
    }

    /// Map a mouse event to an intent: scrolling moves the cursor of
    /// the focused pane, anything else is ignored.
    pub fn action_for_mouse(&self, mouse: MouseEvent) -> (r: Option<Action>)
        ensures
            r == (match mouse {
                MouseEvent::ScrollUp => Some(Action::Up),
                MouseEvent::ScrollDown => Some(Action::Down),
                MouseEvent::Other => None::<Action>,
            }),
    {
        match mouse {
            MouseEvent::ScrollUp => Some(Action::Up),
            MouseEvent::ScrollDown => Some(Action::Down),
            MouseEvent::Other => None,
        }
    }

    /// Route one action. `Update` is broadcast so every pane
    /// resynchronizes its cache with the navigation state; a rebuild's
    /// success is a function of that state alone, so the broadcast
    /// either succeeds for every pane or fails on the first, leaving
    /// every pane untouched, and the error — exactly the failing
    /// stage's — is returned for the caller to treat as fatal. Every
    /// other action goes to the focused pane alone, cannot fail, and
    /// changes nothing but that pane's scroll cursor.
    #[verifier::loop_isolation(false)]
    pub fn dispatch(&mut self, action: Action) -> (r: Result<(), BuildError>)
        requires
            old(self).wf(),
        ensures
            final(self).wf(),
            final(self).state == old(self).state,
            final(self).focused_pane == old(self).focused_pane,
            final(self).panes@.len() == old(self).panes@.len(),
            action == Action::Submit ==> r is Ok && final(self).panes@ == old(self).panes@,
            action == Action::Up || action == Action::Down ==> r is Ok && final(self).panes@
                == old(self).panes@.update(
                old(self).focused_pane as int,
                RequestPane {
                    request_schema_line_offset: scroll_step(
                        old(self).panes@[old(
                            self,
                        ).focused_pane as int].request_schema_line_offset as nat,
                        old(self).panes@[old(
                            self,
                        ).focused_pane as int].request_schema_styles@.len(),
                        action,
                    ) as usize,
                    ..old(self).panes@[old(self).focused_pane as int]
                },
            ),
            action == Action::Update ==> {
                &&& (r is Ok <==> rebuild_ok(
                    old(self).state.selected_schema(),
                    old(self).state.document.env(),
                ))
                &&& (r is Ok ==> forall|j: int|
                    0 <= j < final(self).panes@.len()
                        ==> (#[trigger] final(self).panes@[j]).synced_with(final(self).state))
                &&& (r matches Err(e) ==> rebuild_error_matches(
                    old(self).state.selected_schema(),
                    old(self).state.document.env(),
                    e,
                ) && final(self).panes@ == old(self).panes@)
            },
    {
        if action == Action::Update {
            let ghost sel = self.state.selected_schema();
            let ghost env = self.state.document.env();
            let mut j: usize = 0;
            while j < self.panes.len()
                invariant
                    j <= self.panes@.len(),
                    self.panes@.len() == old(self).panes@.len(),
                    self.focused_pane == old(self).focused_pane,
                    self.state == old(self).state,
                    self.wf(),
                    j > 0 ==> rebuild_ok(sel, env),
                    forall|k: int|
                        0 <= k < j ==> (#[trigger] self.panes@[k]).synced_with(self.state),
                    forall|k: int|
                        j <= k < self.panes@.len() ==> #[trigger] self.panes@[k] == old(
                            self,
                        ).panes@[k],
                decreases self.panes@.len() - j,
            {
                let outcome = self.panes[j].update(Action::Update, &self.state);
                match outcome {
                    Err(e) => {
                        proof {
                            assert(j == 0);
                            assert(self.panes@ =~= old(self).panes@);
                        }
                        return Err(e);
                    },
                    Ok(_) => {},
                }
                j = j + 1;
            }
            Ok(())
        } else {
            let f = self.focused_pane;
            let outcome = self.panes[f].update(action, &self.state);
            proof {
                if action == Action::Submit {
                    assert(self.panes@ =~= old(self).panes@);
                }
            }
            match outcome {
                Err(e) => Err(e),
                Ok(_) => Ok(()),
            }
        }
    }
}

/// Focus exclusivity: a well-formed controller has exactly one focused
/// pane — one exists, and any two focused indices coincide. Focus
/// transfers preserve well-formedness, so this holds after any sequence
/// of them.
pub proof fn lemma_focus_exclusive(app: App)
    requires
        app.wf(),
    ensures
        exists|i: int|
            0 <= i < app.panes@.len() && (#[trigger] app.panes@[i]).focused,
        forall|i: int, j: int|
            0 <= i < app.panes@.len() && 0 <= j < app.panes@.len()
                && (#[trigger] app.panes@[i]).focused && (#[trigger] app.panes@[j]).focused
                ==> i == j,
{
    assert(app.panes@[app.focused_pane as int].focused);
}

} // verus!
