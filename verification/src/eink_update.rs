//! Refreshing the E-Ink panel: how a refresh is asked for, and what is sent
//! to the driver for it.

use vstd::prelude::*;

use crate::types::pos2::Pos2;
use crate::types::rectangle::Rectangle;
use crate::types::vec2::Vec2;
use crate::{FB_HEIGHT, FB_WIDTH};

verus! {

/// The error of an I/O operation of the standard library, carried through
/// unread.
#[verifier::external_type_specification]
#[verifier::external_body]
pub struct ExIoError(std::io::Error);

/// How the E-Ink driver will refresh the pixels.
#[derive(Debug, Clone, Copy, PartialEq, Eq, Structural)]
pub enum UpdateStyle {
    /// A very fast method with minimal ghosting, but only works for black and
    /// white.
    Monochrome,
    /// A relatively fast method with some ghosting. Works for all colors.
    Rgb,
    /// A slow method with no ghosting. Works for all colors.
    Init,
}

/// How much the E-Ink driver will try to remove ghosting.
#[derive(Debug, Clone, Copy, PartialEq, Eq, Structural)]
pub enum UpdateDepth {
    /// A normal and relatively fast update.
    Partial,
    /// A longer and more thorough update. Will flash between black and white.
    Full,
}

/// Something that can refresh a part of the panel.
pub trait EinkUpdate {
    /// Update `rect` using the specified `style` and `depth`.
    ///
    /// The `style` determines how the E-Ink driver refreshes the pixels. The
    /// `depth` determines how hard the driver tries to remove ghosting.
    ///
    /// # Errors
    ///
    /// Writing to the driver's message queue.
    fn update(&self, rect: &Rectangle, style: UpdateStyle, depth: UpdateDepth) -> Result<
        (),
        std::io::Error,
    >;
}

/// The temperature field of every refresh: the driver's drawing mode.
pub const TEMP_REMARKABLE_DRAW: i32 = 0x0018;

/// The type of the message that carries a refresh.
pub const UPDATE_MESSAGE_TYPE: i32 = 2;

/// The key of the driver's message queue.
pub const QUEUE_KEY: i32 = 0x2257c;

impl UpdateStyle {
    /// The driver's number for the refresh algorithm.
    pub open spec fn spec_waveform_mode(self) -> u32 {
        match self {
            UpdateStyle::Init => 0,
            UpdateStyle::Rgb => 3,
            UpdateStyle::Monochrome => 1,
        }
    }

    /// The driver's number for the refresh algorithm.
    #[must_use]
    #[verifier::when_used_as_spec(spec_waveform_mode)]
    pub fn waveform_mode(self) -> (mode: u32)
        ensures
            mode == self.spec_waveform_mode(),
    {
        match self {
            // Init.
            UpdateStyle::Init => 0x0,
            // Gc16-fast.
            UpdateStyle::Rgb => 0x3,
            // Direct update.
            UpdateStyle::Monochrome => 0x1,
        }
    }
}

impl UpdateDepth {
    /// The driver's number for the depth: 1 for a full update, 0 for a
    /// partial one.
    pub open spec fn spec_update_mode(self) -> u32 {
        match self {
            UpdateDepth::Full => 1,
            UpdateDepth::Partial => 0,
        }
    }

    /// The driver's number for the depth.
    #[must_use]
    #[verifier::when_used_as_spec(spec_update_mode)]
    pub fn update_mode(self) -> (mode: u32)
        ensures
            mode == self.spec_update_mode(),
    {
        match self {
            UpdateDepth::Full => 1,
            UpdateDepth::Partial => 0,
        }
    }
}

/// The record that asks the driver for a refresh.
#[derive(Debug, Clone, Copy, PartialEq, Eq, Structural)]
pub struct RefreshRequest {
    pub top: u32,
    pub left: u32,
    pub width: u32,
    pub height: u32,
    pub waveform_mode: u32,
    pub update_mode: u32,
    pub update_marker: u32,
    pub temp: i32,
    pub flags: u32,
    pub dither_mode: i32,
    pub quant_bit: i32,
}

/// The rectangle of the whole framebuffer.
pub open spec fn spec_fb_rect() -> Rectangle {
    Rectangle { origin: Pos2 { x: 0, y: 0 }, size: Vec2 { x: FB_WIDTH, y: FB_HEIGHT } }
}

/// The rectangle of the whole framebuffer.
pub fn fb_rect() -> (r: Rectangle)
    ensures
        r == spec_fb_rect(),
{
    Rectangle { origin: Pos2 { x: 0, y: 0 }, size: Vec2 { x: FB_WIDTH, y: FB_HEIGHT } }
}

/// The part of `rect` that lies on the framebuffer: `(left, top, width,
/// height)`, with width and height never negative.
pub open spec fn spec_on_screen(rect: Rectangle) -> (int, int, int, int) {
    let left = if rect.spec_left() > 0 {
        rect.spec_left()
    } else {
        0
    };
    let top = if rect.spec_top() > 0 {
        rect.spec_top()
    } else {
        0
    };
    let right = if rect.spec_right() < FB_WIDTH {
        rect.spec_right()
    } else {
        FB_WIDTH as int
    };
    let bottom = if rect.spec_bottom() < FB_HEIGHT {
        rect.spec_bottom()
    } else {
        FB_HEIGHT as int
    };
    (
        left,
        top,
        if right - left > 0 {
            right - left
        } else {
            0
        },
        if bottom - top > 0 {
            bottom - top
        } else {
            0
        },
    )
}

/// What is sent to the driver to refresh `rect`: the rectangle is clipped to
/// the framebuffer, and nothing is sent if no pixel is left of it.
pub fn refresh_request(rect: &Rectangle, style: UpdateStyle, depth: UpdateDepth) -> (request: Option<
    RefreshRequest,
>)
    requires
        rect.size.x > i32::MIN,
        rect.size.y > i32::MIN,
        rect.end_fits(),
    ensures
        rect.spec_is_empty() ==> request.is_none(),
        ({
            let area = spec_on_screen(*rect);
            match request {
                None => area.2 == 0 || area.3 == 0,
                Some(r) => area.2 > 0 && area.3 > 0 && r == (RefreshRequest {
                    top: area.1 as u32,
                    left: area.0 as u32,
                    width: area.2 as u32,
                    height: area.3 as u32,
                    waveform_mode: style.spec_waveform_mode(),
                    update_mode: depth.spec_update_mode(),
                    update_marker: 1,
                    temp: TEMP_REMARKABLE_DRAW,
                    flags: 0,
                    dither_mode: 0,
                    quant_bit: 0,
                }),
            }
        }),
{
    let rect = rect.normalize().intersection(&fb_rect());
    if rect.is_empty() {
        return None;
    }
    Some(
        RefreshRequest {
            top: rect.origin.y as u32,
            left: rect.origin.x as u32,
            width: rect.size.x as u32,
            height: rect.size.y as u32,
            waveform_mode: style.waveform_mode(),
            update_mode: depth.update_mode(),
            // Unused since we don't wait for updates (yet).
            update_marker: 1,
            // "Remarkable draw" mode.
            temp: TEMP_REMARKABLE_DRAW,
            flags: 0,
            // Tell the controller to use dithering passthrough.
            dither_mode: 0,
            quant_bit: 0,
        },
    )
}

} // verus!
