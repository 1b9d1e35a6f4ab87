//! State of the on-screen body editor.

use vstd::prelude::*;

verus! {

/// What the editing panel remembers between frames.
pub struct PanelState {
    /// Index, in insertion order, of the body the panel edits.
    pub selected_body: usize,
}

impl PanelState {
    /// A panel that points at the first body.
    pub fn new() -> (panel: PanelState)
        ensures
            panel.selected_body == 0,
    {
        PanelState { selected_body: 0 }
    }
}

} // verus!
