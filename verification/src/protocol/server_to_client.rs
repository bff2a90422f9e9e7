//! What the server tells its clients: where their surfaces are, what input
//! they get, and when a surface is closed.

use vstd::prelude::*;

use crate::input::keyboard::{ButtonEvent, KeyEvent};
use crate::input::stylus::StylusState;
use crate::input::touch::{Id as TouchId, TouchState};
use crate::protocol::SurfaceId;
use crate::types::pos2::Pos2;
use crate::types::rectangle::Rectangle;
use crate::types::rotation::{rotate_point, rotate_size, Rotation};
use crate::types::vec2::{div_toward_zero, fits_i32, Vec2};

verus! {

/// Where a surface is on the framebuffer and how the client's coordinates map
/// onto it: a point of the surface is scaled, turned within the extent of
/// `base_rect`, and moved by the origin of `base_rect`.
#[derive(Debug, Clone, Copy, PartialEq, Eq, Structural)]
pub struct SurfaceDescription {
    pub base_rect: Rectangle,
    pub rotation: Rotation,
    pub scale: u8,
    pub visible: bool,
}

/// The absolute value of an integer.
pub open spec fn abs_int(v: int) -> int {
    if v < 0 {
        -v
    } else {
        v
    }
}

impl SurfaceDescription {
    /// The framebuffer coordinates of the surface point `(x, y)`.
    pub open spec fn spec_transform_point(self, x: int, y: int) -> (int, int) {
        let turned = rotate_point(
            self.rotation,
            x * self.scale,
            y * self.scale,
            self.base_rect.size.x as int,
            self.base_rect.size.y as int,
        );
        (turned.0 + self.base_rect.origin.x, turned.1 + self.base_rect.origin.y)
    }

    /// Whether `point` can be transformed within the range of the
    /// coordinates.
    pub open spec fn can_transform_point(self, point: Pos2) -> bool {
        let turned = rotate_point(
            self.rotation,
            point.x * self.scale,
            point.y * self.scale,
            self.base_rect.size.x as int,
            self.base_rect.size.y as int,
        );
        &&& fits_i32(point.x * self.scale) && fits_i32(point.y * self.scale)
        &&& fits_i32(turned.0) && fits_i32(turned.1)
        &&& fits_i32(turned.0 + self.base_rect.origin.x)
        &&& fits_i32(turned.1 + self.base_rect.origin.y)
    }

    /// Maps a point of the surface to the framebuffer.
    #[inline]
    #[must_use]
    pub fn transform_point(&self, point: Pos2) -> (p: Pos2)
        requires
            self.can_transform_point(point),
        ensures
            (p.x as int, p.y as int) == self.spec_transform_point(point.x as int, point.y as int),
    {
        let scaled = point * (self.scale as i32);
        let turned = self.rotation.transform_point(scaled, self.base_rect.size);
        turned + self.base_rect.origin.to_vec()
    }

    /// The rectangle `(x, y, width, height)` of the surface on the
    /// framebuffer, normalised: `(left, top, width, height)`.
    pub open spec fn spec_transform_rect(self, rect: (int, int, int, int)) -> (int, int, int, int) {
        let o = rotate_point(
            self.rotation,
            rect.0 * self.scale,
            rect.1 * self.scale,
            self.base_rect.size.x as int,
            self.base_rect.size.y as int,
        );
        let s = rotate_point(self.rotation, rect.2 * self.scale, rect.3 * self.scale, 0, 0);
        (
            (if s.0 < 0 {
                o.0 + s.0
            } else {
                o.0
            }) + self.base_rect.origin.x,
            (if s.1 < 0 {
                o.1 + s.1
            } else {
                o.1
            }) + self.base_rect.origin.y,
            abs_int(s.0),
            abs_int(s.1),
        )
    }

    /// Whether `rect` can be transformed within the range of the
    /// coordinates.
    pub open spec fn can_transform_rect(self, rect: Rectangle) -> bool {
        let scaled = Rectangle {
            origin: Pos2 {
                x: (rect.origin.x * self.scale) as i32,
                y: (rect.origin.y * self.scale) as i32,
            },
            size: Vec2 {
                x: (rect.size.x * self.scale) as i32,
                y: (rect.size.y * self.scale) as i32,
            },
        };
        let placed = self.spec_transform_rect(rect.as_ints());
        &&& fits_i32(rect.origin.x * self.scale) && fits_i32(rect.origin.y * self.scale)
        &&& fits_i32(rect.size.x * self.scale) && fits_i32(rect.size.y * self.scale)
        &&& self.rotation.can_transform_rect(scaled, self.base_rect.size)
        &&& fits_i32(placed.0) && fits_i32(placed.1)
    }

    /// Maps a rectangle of the surface to the framebuffer; the result is
    /// normalised.
    #[inline]
    pub fn transform_rect(&self, rect: Rectangle) -> (r: Rectangle)
        requires
            self.can_transform_rect(rect),
        ensures
            r.as_ints() == self.spec_transform_rect(rect.as_ints()),
            r.is_normal(),
    {
        let scaled = Rectangle {
            origin: rect.origin * (self.scale as i32),
            size: rect.size * (self.scale as i32),
        };
        let turned = self.rotation.transform_rect(scaled, &self.base_rect.size);
        Rectangle { origin: turned.origin + self.base_rect.origin.to_vec(), size: turned.size }
    }

    /// The extent that the client sees: that of `base_rect`, turned back and
    /// divided by the scale.
    pub open spec fn spec_size(self) -> (int, int) {
        let turned = rotate_size(
            self.rotation.spec_inverse(),
            self.base_rect.size.x as int,
            self.base_rect.size.y as int,
        );
        (
            div_toward_zero(abs_int(turned.0), self.scale as int),
            div_toward_zero(abs_int(turned.1), self.scale as int),
        )
    }

    /// The extent of the surface in the client's coordinates.
    #[inline]
    #[must_use]
    pub fn size(&self) -> (v: Vec2)
        requires
            self.scale != 0,
            self.base_rect.size.x > i32::MIN,
            self.base_rect.size.y > i32::MIN,
        ensures
            (v.x as int, v.y as int) == self.spec_size(),
    {
        let size = self.rotation.inverse().transform_size(self.base_rect.size).abs();
        size / (self.scale as i32)
    }

    /// Couples the description with a draw target, so that drawing in the
    /// client's coordinates lands on the surface's place in the target.
    #[inline]
    #[must_use]
    pub fn transform<'a, T: ?Sized>(&'a self, base: &'a mut T) -> (t: Transformed<'a, T>)
        ensures
            t.description() == *self,
    {
        Transformed { base, description: self }
    }

    /// Where a point drawn by the client lands on the framebuffer: nowhere
    /// while the surface is invisible or if the point falls outside the
    /// surface.
    pub fn draw_point(&self, point: Pos2) -> (target: Option<Pos2>)
        requires
            self.can_transform_point(point),
            self.base_rect.end_fits(),
        ensures
            match target {
                Some(p) => self.visible && (p.x as int, p.y as int) == self.spec_transform_point(
                    point.x as int,
                    point.y as int,
                ) && self.base_rect.spec_contains(p),
                None => !self.visible || !self.base_rect.spec_contains(
                    Pos2 {
                        x: self.spec_transform_point(point.x as int, point.y as int).0 as i32,
                        y: self.spec_transform_point(point.x as int, point.y as int).1 as i32,
                    },
                ),
            },
    {
        if !self.visible {
            return None;
        }
        let target = self.transform_point(point);
        if self.base_rect.contains(target) {
            Some(target)
        } else {
            None
        }
    }

    /// The part of the framebuffer that filling `area` of the surface
    /// covers: the transformed area clipped to the surface; nothing while
    /// the surface is invisible.
    pub fn fill_area(&self, area: Rectangle) -> (target: Option<Rectangle>)
        requires
            self.can_transform_rect(area),
            ({
                let placed = self.spec_transform_rect(area.as_ints());
                (Rectangle {
                    origin: Pos2 { x: placed.0 as i32, y: placed.1 as i32 },
                    size: Vec2 { x: placed.2 as i32, y: placed.3 as i32 },
                }).can_intersect(self.base_rect)
            }),
        ensures
            target.is_some() == self.visible,
            target matches Some(r) ==> r.is_normal() && forall|p: Pos2|
                r.spec_contains(p) == (self.base_rect.spec_contains(p) && ({
                    let placed = self.spec_transform_rect(area.as_ints());
                    placed.0 <= p.x < placed.0 + placed.2 && placed.1 <= p.y < placed.1 + placed.3
                })),
    {
        if !self.visible {
            return None;
        }
        let placed = self.transform_rect(area);
        Some(placed.intersection(&self.base_rect))
    }

    /// The part of the framebuffer that clearing the surface covers: all of
    /// the surface; nothing while it is invisible.
    pub fn clear_area(&self) -> (target: Option<Rectangle>)
        ensures
            target == (if self.visible {
                Some(self.base_rect)
            } else {
                None
            }),
    {
        if !self.visible {
            return None;
        }
        Some(self.base_rect)
    }
}

/// A draw target seen through a surface description.
pub struct Transformed<'a, T: ?Sized> {
    base: &'a mut T,
    description: &'a SurfaceDescription,
}

impl<'a, T: ?Sized> Transformed<'a, T> {
    /// The description that drawing goes through.
    pub closed spec fn description(&self) -> SurfaceDescription {
        *self.description
    }

    /// The description that drawing goes through.
    pub fn get_description(&self) -> (d: &SurfaceDescription)
        ensures
            *d == self.description(),
    {
        self.description
    }
}

/// What became of a contact, with its state at that moment.
#[derive(Debug, Clone, Copy, PartialEq, Eq, Structural)]
pub enum TouchPhase {
    Start(TouchState),
    Change(TouchState),
    End,
}

#[derive(Debug, Clone, Copy, PartialEq, Eq, Structural)]
pub struct TouchEvent {
    pub id: TouchId,
    pub phase: TouchPhase,
}

/// How the stylus contact changed, with the state of the tool at that moment.
#[derive(Debug, Clone, Copy, PartialEq, Eq, Structural)]
pub enum StylusPhase {
    Hover(StylusState),
    Touch(StylusState),
    Change(StylusState),
    Lift(StylusState),
    Leave,
}

#[derive(Debug, Clone, Copy, PartialEq, Eq, Structural)]
pub struct StylusEvent {
    pub phase: StylusPhase,
}

/// Input for one surface.
#[derive(Debug, Clone, PartialEq, Eq)]
pub enum InputEvent {
    Key(KeyEvent),
    Text(String),
    Touch(TouchEvent),
    Stylus(StylusEvent),
    Button(ButtonEvent),
}

/// `InputEvent` with text as a sequence of characters.
pub enum InputEventView {
    Key(KeyEvent),
    Text(Seq<char>),
    Touch(TouchEvent),
    Stylus(StylusEvent),
    Button(ButtonEvent),
}

impl View for InputEvent {
    type V = InputEventView;

    open spec fn view(&self) -> InputEventView {
        match self {
            InputEvent::Key(event) => InputEventView::Key(*event),
            InputEvent::Text(text) => InputEventView::Text(text@),
            InputEvent::Touch(event) => InputEventView::Touch(*event),
            InputEvent::Stylus(event) => InputEventView::Stylus(*event),
            InputEvent::Button(event) => InputEventView::Button(*event),
        }
    }
}

/// What happens to a surface.
#[derive(Debug, Clone, PartialEq, Eq)]
pub enum SurfaceEvent {
    /// The surface has a new place.
    Description(SurfaceDescription),
    /// The surface has input.
    Input(InputEvent),
    /// The surface is closed.
    Quit,
}

/// `SurfaceEvent` with text as a sequence of characters.
pub enum SurfaceEventView {
    Description(SurfaceDescription),
    Input(InputEventView),
    Quit,
}

impl View for SurfaceEvent {
    type V = SurfaceEventView;

    open spec fn view(&self) -> SurfaceEventView {
        match self {
            SurfaceEvent::Description(description) => SurfaceEventView::Description(*description),
            SurfaceEvent::Input(event) => SurfaceEventView::Input(event@),
            SurfaceEvent::Quit => SurfaceEventView::Quit,
        }
    }
}

/// A message from the server to a client.
#[derive(Debug, Clone, PartialEq, Eq)]
pub enum Event {
    Surface { id: SurfaceId, event: SurfaceEvent },
}

/// `Event` with text as a sequence of characters.
pub enum EventView {
    Surface { id: SurfaceId, event: SurfaceEventView },
}

impl View for Event {
    type V = EventView;

    open spec fn view(&self) -> EventView {
        match self {
            Event::Surface { id, event } => EventView::Surface { id: *id, event: event@ },
        }
    }
}

} // verus!
