//! The size of the window and of the start button.
use vstd::prelude::*;

verus! {

/// Width of the window.
pub const W: u32 = 400u32;

/// Height of the window.
pub const H: u32 = 500u32;

/// Width of the start button at rest.
pub const START_W: u32 = 180u32;

/// Height of the start button at rest.
pub const START_H: u32 = 80u32;

} // verus!
