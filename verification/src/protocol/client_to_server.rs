//! What a client may ask of the server.

use vstd::prelude::*;

use crate::types::side::Side;

verus! {

/// The place that a new surface asks for.
#[derive(Debug, Clone, Copy, PartialEq, Eq, Structural)]
pub enum SurfaceInit {
    /// A band of the given width along a side of the screen.
    Layer { anchor: Side, size: i32 },
    /// A share of the main area.
    Normal,
    /// The area behind the main area.
    Wallpaper,
}

#[derive(Debug, Clone, Copy, PartialEq, Eq, Structural)]
pub enum Command {
    CreateSurface(SurfaceInit),
}

} // verus!
