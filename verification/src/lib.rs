//! Windowing substrate for a Wayland compositor connection: surface
//! identity, creation attributes, popup positioner encoding, and the
//! configure/acknowledge handshake that drives lifecycle callbacks.

use vstd::prelude::*;

pub mod attributes;
pub mod geometry;
pub mod positioner;
pub mod registry;
pub mod surface;

verus! {

/// Stable, opaque identifier of an on-screen surface, derived from the
/// native protocol object's identity. Never reused while the object lives.
#[derive(Debug, Clone, Copy, PartialEq, Eq, Hash, Structural)]
pub struct WindowId(pub u128);

} // verus!
