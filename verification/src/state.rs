//! The shared navigation state: the loaded document and the current
//! selection. Every pane reads it; the navigation writer replaces the
//! selection as a whole, never partially.

use vstd::prelude::*;
use crate::builder::op_json_schema;
use crate::schema::Document;
use crate::schema::Operation;
use crate::schema::SchemaModel;

verus! {

/// The navigation state.
pub struct State {
    pub document: Document,
    pub selected: Option<usize>,
}

impl State {
    /// A selection, when present, indexes an operation of the document.
    pub open spec fn wf(self) -> bool {
        self.selected matches Some(i) ==> i < self.document.operations@.len()
    }

    /// The currently selected operation, if the selection is valid.
    pub open spec fn active(self) -> Option<Operation> {
        match self.selected {
            None => None,
            Some(i) => if i < self.document.operations@.len() {
                Some(self.document.operations@[i as int])
            } else {
                None
            },
        }
    }

    /// The JSON request schema of the active operation, if any.
    pub open spec fn selected_schema(self) -> Option<SchemaModel> {
        match self.active() {
            None => None,
            Some(o) => op_json_schema(o),
        }
    }

    /// A fresh state over `document` with nothing selected.
    pub fn new(document: Document) -> (r: State)
        ensures
            r.document == document,
            r.selected is None,
            r.wf(),
    {
        State { document, selected: None }
    }

    /// Replace the selection as a whole. An out-of-range index is
    /// rejected and leaves the selection unchanged, so the state stays
    /// well formed.
    pub fn select(&mut self, selected: Option<usize>) -> (r: bool)
        requires
            old(self).wf(),
        ensures
            final(self).document == old(self).document,
            r == (match selected {
                Some(i) => i < old(self).document.operations@.len(),
                None => true,
            }),
            r ==> final(self).selected == selected,
            !r ==> final(self).selected == old(self).selected,
            final(self).wf(),
    {
        match selected {
            Some(i) => {
                if i < self.document.operations.len() {
                    self.selected = Some(i);
                    true
                } else {
                    false
                }
            },
            None => {
                self.selected = None;
                true
            },
        }
    }

    /// The currently selected operation.
    pub fn active_operation(&self) -> (r: Option<&Operation>)
        ensures
            match r {
                Some(o) => self.active() == Some(*o),
                None => self.active() is None,
            },
    {
        match self.selected {
            None => None,
            Some(i) => if i < self.document.operations.len() {
                Some(&self.document.operations[i])
            } else {
                None
            },
        }
    }
}

} // verus!
