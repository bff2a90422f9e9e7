//! Signed 32-bit integer geometry: points, vectors, rectangles, quarter-turn
//! rotations and screen sides.

use vstd::prelude::*;

pub mod pos2;
pub mod rectangle;
pub mod rotation;
pub mod side;
pub mod vec2;

pub use self::pos2::{pos2, Pos2};
pub use self::rectangle::{rect, Points, Rectangle};
pub use self::rotation::Rotation;
pub use self::side::Side;
pub use self::vec2::{vec2, Vec2};

verus! {

/// A vector component does not fit the unsigned size it is converted to.
#[derive(Debug, Clone, Copy, PartialEq, Eq, Structural)]
pub struct ComponentOutOfRange;

} // verus!
