//! Render gate backend interface.
//!
//! This interface defines the low-level API render gates must implement to be usable.
use vstd::prelude::*;
use crate::render_state::RenderState;

verus! {

/// Render gate backend: applying a render state to the renders that follow.
pub trait RenderGate {
    /// The render state that renders use, if one was entered.
    spec fn spec_render_state(&self) -> Option<RenderState>;

    /// Enter a render state.
    fn enter_render_state(&mut self, rdr_st: &RenderState)
        ensures
            final(self).spec_render_state() == Some(*rdr_st),
    ;
}

} // verus!
