//! A verified core for a software-rendered animated wallpaper client.
//!
//! The library holds everything about the wallpaper that can be stated and
//! proved over plain values: the gradient pixel computation and its buffer
//! layout, the layer-surface negotiation parameters, and the event-driven
//! presentation state machine (first-configure gate, close handling, pointer
//! capability bookkeeping, animation shift progression). The surrounding
//! binary performs the display-server I/O and feeds events into this core.

pub mod pixel;
pub mod session;
pub mod trace;

use vstd::prelude::*;

verus! {

/// Largest surface dimension the renderer accepts: keeps every channel
/// product `dimension * 255` comfortably inside `u32`.
pub const MAX_DIM: u32 = 0xFFFFFF;

} // verus!
