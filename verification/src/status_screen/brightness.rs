//! The brightness overlay of the status screen: a vertical bar with a sun above it on a rounded
//! backdrop, shown beside the layer while the backlight is being adjusted.
use vstd::prelude::*;

use crate::graphics::Rect;
use crate::status_screen::band::Band;
use crate::status_screen::{BRIGHTNESS_SLIDE_FRAMES, BrightnessOverlay, IconSize, spec_to_i32, spec_to_u32, to_i32, to_u32};

verus! {

/// Horizontal center (px) of the overlay once it is fully in.
pub const CENTER_X: i32 = 242;

/// Vertical center (px) of the overlay, on the same line as the layer.
pub const CENTER_Y: i32 = 118;

/// Width (px) of the bar, which also fixes the radius of its rounded ends.
pub const BAR_WIDTH: i32 = 6;

/// Height (px) of the bar, which is the whole range of the backlight.
pub const BAR_HEIGHT: i32 = 96;

/// Gap (px) between the sun and the top of the bar.
pub const ICON_GAP: i32 = 6;

/// Corner radius (px) of the backdrop.
pub const RADIUS: u32 = 16;

/// Distance (px) the backdrop keeps around the sun and the bar.
pub const PADDING: i32 = 8;

/// Color of the whole length of the bar, so that the part above the level stays visible.
pub fn track_color() -> (c: u16)
    ensures
        c == crate::graphics::spec_rgb565(8, 16, 8),
{
    crate::graphics::rgb565(8, 16, 8)
}

/// Color of the backdrop: bright enough to separate the overlay from the layer underneath and
/// dark enough not to compete with the bar on it. The bar and the sun are drawn in the
/// foreground color.
pub fn backdrop_color() -> (c: u16)
    ensures
        c == crate::graphics::spec_rgb565(3, 6, 3),
{
    crate::graphics::rgb565(3, 6, 3)
}

/// Height (px) of the sun, the gap and the bar stacked.
pub open spec fn spec_block_height(sun: IconSize) -> int {
    spec_to_i32(sun.height) + ICON_GAP + BAR_HEIGHT
}

/// The backdrop of the overlay where it comes to rest.
pub open spec fn spec_backdrop(sun: IconSize) -> Rect {
    let block_width = if spec_to_i32(sun.width) >= BAR_WIDTH {
        spec_to_i32(sun.width) as int
    } else {
        BAR_WIDTH as int
    };
    let block_height = spec_block_height(sun);
    Rect {
        x: (CENTER_X - block_width / 2 - PADDING) as i32,
        y: (CENTER_Y - block_height / 2 - PADDING) as i32,
        width: (block_width + 2 * PADDING) as u32,
        height: (block_height + 2 * PADDING) as u32,
    }
}

fn backdrop(sun: IconSize) -> (r: Rect)
    requires
        sun.small(),
    ensures
        r == spec_backdrop(sun),
{
    let icon_width = to_i32(sun.width);
    let icon_height = to_i32(sun.height);
    let block_width = if icon_width >= BAR_WIDTH {
        icon_width
    } else {
        BAR_WIDTH
    };
    let block_height = icon_height + ICON_GAP + BAR_HEIGHT;
    Rect {
        x: CENTER_X - block_width / 2 - PADDING,
        y: CENTER_Y - block_height / 2 - PADDING,
        width: to_u32(block_width + 2 * PADDING),
        height: to_u32(block_height + 2 * PADDING),
    }
}

/// Rows the overlay covers: those of its backdrop, which holds everything else of it.
pub fn band(sun: IconSize) -> (r: Band)
    requires
        sun.small(),
    ensures
        r.top == spec_backdrop(sun).y,
        r.height == spec_backdrop(sun).height,
{
    let b = backdrop(sun);
    Band { top: b.y, height: b.height as i32 }
}

/// Distance (px) the overlay is pushed to the right at `slide`, given a screen `width` px wide
/// and a backdrop whose left edge is at `backdrop_x` once the overlay is fully in: the distance
/// from the backdrop to the right edge, scaled by the frames still to come in.
pub open spec fn spec_slide_offset(width: int, backdrop_x: int, slide: u8) -> int {
    spec_travel(width, backdrop_x) * spec_frames_left(slide) / (BRIGHTNESS_SLIDE_FRAMES as int)
}

/// The frames the overlay still has to come in at `slide`.
pub open spec fn spec_frames_left(slide: u8) -> int {
    if slide >= BRIGHTNESS_SLIDE_FRAMES {
        0
    } else {
        BRIGHTNESS_SLIDE_FRAMES - slide
    }
}

/// The distance from a backdrop whose left edge is at `backdrop_x` to the right edge of a screen
/// `width` px wide, or zero when the backdrop starts past it.
pub open spec fn spec_travel(width: int, backdrop_x: int) -> int {
    if width - backdrop_x >= 0 {
        width - backdrop_x
    } else {
        0
    }
}

/// Whether the overlay at `slide` can be laid out on a screen `width` px wide with `sun` without
/// the arithmetic leaving `i32`: the distance to the right edge, that distance times the frames
/// still to come in, and the sun and the bar pushed right by the offset.
pub open spec fn spec_overlay_fits(width: int, slide: u8, sun: IconSize) -> bool {
    let rest = spec_backdrop(sun);
    let offset = spec_slide_offset(width, rest.x as int, slide);
    &&& i32::MIN <= width - rest.x <= i32::MAX
    &&& spec_travel(width, rest.x as int) * spec_frames_left(slide) <= i32::MAX
    &&& CENTER_X - spec_to_i32(sun.width) / 2 + offset <= i32::MAX
    &&& CENTER_X - BAR_WIDTH / 2 + offset <= i32::MAX
}

/// Distance (px) the overlay is pushed to the right at `slide`, given a screen `width` px wide
/// and a backdrop whose left edge is at `backdrop_x` once the overlay is fully in.
///
/// At slide 0 the backdrop starts where the panel ends, which puts the whole overlay off the
/// right edge, and the distance shrinks to nothing over [`BRIGHTNESS_SLIDE_FRAMES`] frames.
pub fn slide_offset(width: i32, backdrop_x: i32, slide: u8) -> (r: i32)
    requires
        i32::MIN <= width - backdrop_x <= i32::MAX,
        spec_travel(width as int, backdrop_x as int) * spec_frames_left(slide) <= i32::MAX,
    ensures
        r == spec_slide_offset(width as int, backdrop_x as int, slide),
        0 <= r,
        r <= width - backdrop_x || r == 0,
{
    let frames = BRIGHTNESS_SLIDE_FRAMES as i32;
    let left = if (slide as i32) >= frames {
        0
    } else {
        frames - slide as i32
    };
    let travel = if width - backdrop_x >= 0 {
        width - backdrop_x
    } else {
        0
    };
    assert(0 <= travel * left && travel * left / 6 <= travel) by (nonlinear_arith)
        requires
            0 <= travel,
            0 <= left <= 6,
    ;
    travel * left / frames
}

/// Whether [`draw_brightness`] can lay out the overlay at `slide` on a screen `width` px wide
/// with `sun`.
pub fn overlay_fits(width: i32, slide: u8, sun: IconSize) -> (r: bool)
    requires
        sun.small(),
    ensures
        r == spec_overlay_fits(width as int, slide, sun),
{
    let rest = backdrop(sun);
    let distance = width as i64 - rest.x as i64;
    if distance < i32::MIN as i64 || distance > i32::MAX as i64 {
        return false;
    }
    let travel: i64 = if distance >= 0 {
        distance
    } else {
        0
    };
    let left: i64 = if slide >= BRIGHTNESS_SLIDE_FRAMES {
        0
    } else {
        (BRIGHTNESS_SLIDE_FRAMES - slide) as i64
    };
    assert(0 <= travel * left <= travel * 6) by (nonlinear_arith)
        requires
            0 <= travel,
            0 <= left <= 6,
    ;
    let moved = travel * left;
    if moved > i32::MAX as i64 {
        return false;
    }
    let offset = moved / 6;
    let icon_x = CENTER_X as i64 - (to_i32(sun.width) / 2) as i64 + offset;
    let bar_x = CENTER_X as i64 - (BAR_WIDTH / 2) as i64 + offset;
    icon_x <= i32::MAX as i64 && bar_x <= i32::MAX as i64
}

/// A bar [`BAR_WIDTH`] px wide and `length` px tall whose bottom edge is at `bottom`, with its
/// left edge at `x`. It grows from the bottom because the level it shows grows that way.
pub fn bar(x: i32, bottom: i32, length: i32) -> (r: Rect)
    requires
        -0x100_0000 <= bottom <= 0x100_0000,
        -0x100_0000 <= length <= 0x100_0000,
    ensures
        r == (Rect { x, y: (bottom - length) as i32, width: BAR_WIDTH as u32, height: spec_to_u32(length) }),
{
    Rect { x, y: bottom - length, width: to_u32(BAR_WIDTH), height: to_u32(length) }
}

/// Where the parts of the overlay land on a screen `width` px wide.
#[derive(Clone, Copy, PartialEq, Eq, Debug)]
pub struct OverlayGeometry {
    /// The rounded backdrop.
    pub backdrop: Rect,
    /// Top left corner of the sun.
    pub icon_x: i32,
    /// Top left corner of the sun.
    pub icon_y: i32,
    /// The whole length of the bar.
    pub track: Rect,
    /// The area the filled part is clipped to: as long as the level asks for.
    pub visible: Rect,
    /// The stadium of the filled part that is drawn: the visible length, but never shorter than
    /// the bar is wide.
    pub drawn: Rect,
}

/// The length (px) of the filled part of the bar at `percent`, rounded so that only the two ends
/// of the range are drawn as an empty and as a full bar.
pub open spec fn spec_filled(percent: u8) -> int {
    (BAR_HEIGHT * (if percent <= 100 { percent as int } else { 100 }) + 50) / 100
}

/// Lays out the overlay on a screen `width` px wide. Everything is laid out where the overlay
/// comes to rest and then moved as one, so that the slide cannot pull the parts apart.
pub fn draw_brightness(width: i32, overlay: BrightnessOverlay, sun: IconSize) -> (r: OverlayGeometry)
    requires
        sun.small(),
        spec_overlay_fits(width as int, overlay.slide, sun),
    ensures
        ({
            let rest = spec_backdrop(sun);
            let offset = spec_slide_offset(width as int, rest.x as int, overlay.slide);
            let icon_y = rest.y + PADDING;
            let bar_x = CENTER_X - BAR_WIDTH / 2 + offset;
            let bottom = icon_y + spec_to_i32(sun.height) + ICON_GAP + BAR_HEIGHT;
            let filled = spec_filled(overlay.percent);
            &&& r.backdrop == (Rect { x: (rest.x + offset) as i32, ..rest })
            &&& r.icon_x == CENTER_X - spec_to_i32(sun.width) / 2 + offset
            &&& r.icon_y == icon_y
            &&& r.track == (Rect { x: bar_x as i32, y: (bottom - BAR_HEIGHT) as i32, width: BAR_WIDTH as u32, height: BAR_HEIGHT as u32 })
            &&& r.visible == (Rect { x: bar_x as i32, y: (bottom - filled) as i32, width: BAR_WIDTH as u32, height: filled as u32 })
            &&& r.drawn == (Rect {
                x: bar_x as i32,
                y: (bottom - (if filled >= BAR_WIDTH { filled } else { BAR_WIDTH as int })) as i32,
                width: BAR_WIDTH as u32,
                height: (if filled >= BAR_WIDTH { filled } else { BAR_WIDTH as int }) as u32,
            })
        }),
{
    let icon_width = to_i32(sun.width);
    let icon_height = to_i32(sun.height);
    let rest = backdrop(sun);
    let offset = slide_offset(width, rest.x, overlay.slide);
    let icon_x = CENTER_X - icon_width / 2 + offset;
    let icon_y = rest.y + PADDING;
    let bar_x = CENTER_X - BAR_WIDTH / 2 + offset;
    let bar_bottom = icon_y + icon_height + ICON_GAP + BAR_HEIGHT;
    let track = bar(bar_x, bar_bottom, BAR_HEIGHT);
    let percent: i32 = if overlay.percent <= 100 {
        overlay.percent as i32
    } else {
        100
    };
    let filled = (BAR_HEIGHT * percent + 50) / 100;
    let visible = bar(bar_x, bar_bottom, filled);
    let drawn_len = if filled >= BAR_WIDTH {
        filled
    } else {
        BAR_WIDTH
    };
    let drawn = bar(bar_x, bar_bottom, drawn_len);
    OverlayGeometry {
        backdrop: Rect { x: rest.x + offset, ..rest },
        icon_x,
        icon_y,
        track,
        visible,
        drawn,
    }
}

/// At slide 0 the overlay starts exactly where the screen ends, so none of it is on screen;
/// fully in it rests where it is laid out; in between it moves in monotonically.
pub proof fn lemma_slide_ends(width: int, backdrop_x: int, slide: u8, later: u8)
    requires
        backdrop_x <= width,
        slide <= later,
    ensures
        backdrop_x + spec_slide_offset(width, backdrop_x, 0) == width,
        spec_slide_offset(width, backdrop_x, BRIGHTNESS_SLIDE_FRAMES) == 0,
        spec_slide_offset(width, backdrop_x, later) <= spec_slide_offset(width, backdrop_x, slide),
{
    let travel = width - backdrop_x;
    assert(travel * 6 / 6 == travel) by (nonlinear_arith);
    let l1: int = if slide >= 6 {
        0
    } else {
        6 - slide
    };
    let l2: int = if later >= 6 {
        0
    } else {
        6 - later
    };
    assert(l2 <= l1);
    assert(travel * l2 / 6 <= travel * l1 / 6) by (nonlinear_arith)
        requires
            travel >= 0,
            0 <= l2 <= l1,
    ;
}

/// The filled part of the bar is never longer than the bar.
pub proof fn lemma_fill_within_bar(percent: u8)
    ensures
        0 <= spec_filled(percent) <= BAR_HEIGHT,
        percent == 0 ==> spec_filled(percent) == 0,
        percent >= 100 ==> spec_filled(percent) == BAR_HEIGHT,
{
    let p: int = if percent <= 100 {
        percent as int
    } else {
        100
    };
    assert(0 <= (96 * p + 50) / 100 <= 96) by (nonlinear_arith)
        requires
            0 <= p <= 100,
    ;
}

/// The bar is filled in proportion to the percentage, rounded to the nearest pixel: from 0 to
/// 100 percent the filled length is within half a pixel of that share of [`BAR_HEIGHT`], and a
/// higher percentage never fills less.
pub proof fn lemma_fill_proportional(percent: u8, other: u8)
    ensures
        percent <= 100 ==> -50 < 100 * spec_filled(percent) - BAR_HEIGHT * percent <= 50,
        percent <= other ==> spec_filled(percent) <= spec_filled(other),
        percent > 100 ==> spec_filled(percent) == BAR_HEIGHT,
{
    let p: int = if percent <= 100 {
        percent as int
    } else {
        100
    };
    let q: int = if other <= 100 {
        other as int
    } else {
        100
    };
    assert(-50 < 100 * ((96 * p + 50) / 100) - 96 * p <= 50) by (nonlinear_arith)
        requires
            0 <= p <= 100,
    ;
    assert(p <= q ==> (96 * p + 50) / 100 <= (96 * q + 50) / 100) by (nonlinear_arith)
        requires
            0 <= p,
    ;
}

} // verus!
