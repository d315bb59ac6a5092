//! The decision core of an X11 event loop: the control-flow policy, the
//! iteration driver that orders every delivery, redraw coalescing, and the
//! registry of input devices with their scroll calibration.
use vstd::prelude::*;

pub mod control_flow;
pub mod device;
pub mod event;
pub mod event_loop;
pub mod listen;
pub mod loop_laws;
pub mod redraw;
pub mod registry;

verus! {

} // verus!
