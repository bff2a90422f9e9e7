//! Core logic of a compositing window manager for an E-Ink tablet: integer
//! geometry, input normalisation, the surface layout and the framed client
//! protocol, each with machine-checked contracts.

use vstd::prelude::*;

pub mod types;
pub mod wm;
pub mod eink_update;
pub mod fb;
pub mod input;
pub mod protocol;

verus! {

/// Width of the framebuffer in pixels.
pub const FB_WIDTH: i32 = 1404;

/// Height of the framebuffer in pixels.
pub const FB_HEIGHT: i32 = 1872;

} // verus!

