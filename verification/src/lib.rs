//! Core of a train-departure display: the wire-shaped record model, the
//! status classifier that turns one record into a render-ready display
//! state, the latest-wins hand-off slot between the polling task and the
//! render loop, and the state hub that holds the list currently shown.
use vstd::prelude::*;

pub mod classify;
pub mod hub;
pub mod record;
pub mod text;
pub mod timefmt;

verus! {

/// Fixed poll interval of the background fetch task, in milliseconds.
pub const UPDATE_RATE_MS: u32 = 15000;

} // verus!
