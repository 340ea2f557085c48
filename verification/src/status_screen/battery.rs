//! The battery band along the bottom of the status screen: one bar per half, each with its
//! level printed above it.
use vstd::prelude::*;

use crate::connection::BatteryStatus;
use crate::graphics::{Rect, rgb565, rgb565_b, rgb565_g, rgb565_r, spec_rgb565};
use crate::status_screen::band::Band;
use crate::status_screen::fonts::{ScreenFont, font_box};
use crate::status_screen::{HALF_LEFT, HALF_RIGHT, Status, font_band, spec_to_u32, to_u32};

verus! {

/// Vertical center (px) of the bars.
pub const CENTER_Y: i32 = 214;

/// Height (px) of a bar, which also fixes the radius of its rounded ends.
pub const BAR_HEIGHT: i32 = 6;

/// Topmost row (px) of a bar.
pub const BAR_TOP: i32 = 211;

/// Distance (px) the bars keep from the left and right edges of the panel.
pub const SIDE_MARGIN: i32 = 20;

/// Gap (px) between the two bars.
pub const CENTER_GAP: i32 = 8;

/// Gap (px) between the top of a bar and the level printed above it.
pub const TEXT_GAP: i32 = 8;

/// Vertical center (px) of the level printed above a bar.
pub const TEXT_CENTER_Y: i32 = 203;

/// Lowest level (%) still drawn in the high color.
pub const HIGH_PERCENT: u8 = 35;

/// Lowest level (%) still drawn in the middle color, which is the low battery threshold of the
/// indicator LEDs.
pub const MIDDLE_PERCENT: u8 = 20;

/// Numerator of the fraction the bar color is dimmed by for the part that is not filled.
pub const TRACK_DIM_NUM: u32 = 1;

/// Denominator of [`TRACK_DIM_NUM`].
pub const TRACK_DIM_DEN: u32 = 4;

/// Rows the battery band covers.
pub open spec fn spec_band() -> Band {
    crate::status_screen::spec_font_band(ScreenFont::Level, TEXT_CENTER_Y as int).spec_union(
        Band { top: BAR_TOP, height: BAR_HEIGHT },
    )
}

/// Rows the battery band covers: the bars and, above them, the tallest glyph the level can have.
pub fn band() -> (r: Band)
    ensures
        r == spec_band(),
        -0x1000 < r.top <= BAR_TOP,
        r.top + r.height >= BAR_TOP + BAR_HEIGHT,
        0 <= r.height <= 0x2000,
{
    let text = font_band(font_box(ScreenFont::Level), TEXT_CENTER_Y);
    text.union(Band { top: BAR_TOP, height: BAR_HEIGHT })
}

/// The color a bar is drawn in for `level`.
pub open spec fn spec_level_color(level: Option<u8>) -> u16 {
    match level {
        Some(l) => if l >= HIGH_PERCENT {
            spec_rgb565(0, 63, 0)
        } else if l >= MIDDLE_PERCENT {
            spec_rgb565(31, 40, 0)
        } else {
            spec_rgb565(31, 0, 0)
        },
        None => spec_rgb565(8, 16, 8),
    }
}

/// Color a bar is drawn in for `level`: green from [`HIGH_PERCENT`] up, amber from
/// [`MIDDLE_PERCENT`] up, red below, and gray while the level is unknown.
pub fn level_color(level: Option<u8>) -> (c: u16)
    ensures
        c == spec_level_color(level),
{
    match level {
        Some(level) => if level >= HIGH_PERCENT {
            rgb565(0, 63, 0)
        } else if level >= MIDDLE_PERCENT {
            rgb565(31, 40, 0)
        } else {
            rgb565(31, 0, 0)
        },
        None => rgb565(8, 16, 8),
    }
}

/// A channel scaled by `num / den` (a zero `den` counting as one), dropping to zero when the
/// result does not fit a byte.
pub open spec fn spec_dim_channel(channel: u8, num: u32, den: u32) -> u8 {
    let d: int = if den == 0 {
        1
    } else {
        den as int
    };
    let v: int = (channel as int * num as int) / d;
    if v <= 255 {
        v as u8
    } else {
        0
    }
}

fn dim_channel(channel: u8, num: u32, den: u32) -> (r: u8)
    requires
        channel * num <= u32::MAX,
    ensures
        r == spec_dim_channel(channel, num, den),
{
    let d: u32 = if den == 0 {
        1
    } else {
        den
    };
    let v: u32 = channel as u32 * num / d;
    if v <= 255 {
        v as u8
    } else {
        0
    }
}

/// `color` with every channel scaled by `num / den`.
pub fn dimmed(color: u16, num: u32, den: u32) -> (c: u16)
    requires
        ((color >> 11u16) as u8 & 31u8) * num <= u32::MAX,
        ((color >> 5u16) as u8 & 63u8) * num <= u32::MAX,
        (color as u8 & 31u8) * num <= u32::MAX,
    ensures
        c == spec_rgb565(
            spec_dim_channel(((color >> 11u16) as u8 & 31u8), num, den),
            spec_dim_channel(((color >> 5u16) as u8 & 63u8), num, den),
            spec_dim_channel((color as u8 & 31u8), num, den),
        ),
{
    let r = rgb565_r(color);
    let g = rgb565_g(color);
    let b = rgb565_b(color);
    assert(r <= 31 && g <= 63 && b <= 31) by (bit_vector)
        requires
            r == ((color >> 11u16) as u8 & 31u8),
            g == ((color >> 5u16) as u8 & 63u8),
            b == (color as u8 & 31u8),
    ;
    rgb565(dim_channel(r, num, den), dim_channel(g, num, den), dim_channel(b, num, den))
}

/// The filled part of a bar: drawn at its full cap length at least, and clipped to the length
/// the level asks for.
#[derive(Clone, Copy, PartialEq, Eq, Debug)]
pub struct BarFill {
    /// The area the fill is clipped to: as long as the level asks for.
    pub visible: Rect,
    /// The stadium that is drawn: the visible length, but never shorter than the bar is tall.
    pub drawn: Rect,
}

/// One half of the battery band.
#[derive(Clone, Copy, PartialEq, Eq, Debug)]
pub struct BatteryBar {
    /// The whole length of the bar.
    pub track: Rect,
    /// Color the whole length of the bar is drawn in.
    pub track_color: u16,
    /// The filled part, when the level is known.
    pub fill: Option<BarFill>,
    /// Color of the filled part and of the level printed above the bar.
    pub color: u16,
    /// The level printed above the bar; `None` prints the unknown label.
    pub level: Option<u8>,
    /// Center (px) of the level printed above the bar.
    pub text_x: i32,
    /// Vertical center (px) of the level printed above the bar.
    pub text_y: i32,
}

/// The length (px) of the filled part of a bar `bar_width` px long at `level` percent, rounded
/// so that a bar is never shorter than the number above it says.
pub open spec fn spec_filled(bar_width: int, level: u8) -> int {
    trunc_div(bar_width * spec_percent(level) + 50, 100)
}

/// A level as the percentage a bar is filled to: levels above 100 fill it whole.
pub open spec fn spec_percent(level: u8) -> int {
    if level <= 100 {
        level as int
    } else {
        100
    }
}

/// `a / b` rounded toward zero, as integer division in Rust does, for a positive `b`.
pub open spec fn trunc_div(a: int, b: int) -> int {
    if a >= 0 {
        a / b
    } else {
        -((-a) / b)
    }
}

/// Whether a bar of `bar_width` starting at `x` can be laid out for `level` without the
/// arithmetic leaving `i32`: the length filled at that level before it is rounded, and the center
/// of the text.
pub open spec fn spec_bar_fits(x: int, bar_width: int, level: Option<u8>) -> bool {
    &&& level matches Some(l) ==> i32::MIN <= bar_width * spec_percent(l) && bar_width
        * spec_percent(l) + 50 <= i32::MAX
    &&& i32::MIN <= x + trunc_div(bar_width, 2) <= i32::MAX
}

/// One half laid out as a bar of `bar_width` starting at `x`, with its level printed above it.
pub open spec fn spec_battery_bar(x: i32, bar_width: i32, level: Option<u8>) -> BatteryBar {
    let color = spec_level_color(level);
    let track = Rect { x, y: BAR_TOP, width: spec_to_u32(bar_width), height: BAR_HEIGHT as u32 };
    match level {
        None => BatteryBar {
            track,
            track_color: color,
            fill: None,
            color,
            level,
            text_x: (x + trunc_div(bar_width as int, 2)) as i32,
            text_y: TEXT_CENTER_Y,
        },
        Some(l) => {
            let filled = spec_filled(bar_width as int, l);
            BatteryBar {
                track,
                track_color: spec_rgb565(
                    spec_dim_channel(((color >> 11u16) as u8 & 31u8), 1, 4),
                    spec_dim_channel(((color >> 5u16) as u8 & 63u8), 1, 4),
                    spec_dim_channel((color as u8 & 31u8), 1, 4),
                ),
                fill: Some(
                    BarFill {
                        visible: Rect {
                            x,
                            y: BAR_TOP,
                            width: spec_to_u32(filled as i32),
                            height: BAR_HEIGHT as u32,
                        },
                        drawn: Rect {
                            x,
                            y: BAR_TOP,
                            width: (if filled >= BAR_HEIGHT { filled } else { BAR_HEIGHT as int }) as u32,
                            height: BAR_HEIGHT as u32,
                        },
                    },
                ),
                color,
                level,
                text_x: (x + trunc_div(bar_width as int, 2)) as i32,
                text_y: TEXT_CENTER_Y,
            }
        },
    }
}

/// Lays out one half as a bar of `bar_width` starting at `x`, with its level printed above it.
///
/// The whole bar is drawn first, dimmed when there is a level to fill it with and plain gray
/// otherwise, then the filled part over it: a stadium drawn at its full cap length at least and
/// clipped to the length the level asks for, rounded so that a bar is never shorter than the
/// number above it says.
pub fn battery_bar(x: i32, bar_width: i32, level: Option<u8>) -> (r: BatteryBar)
    requires
        spec_bar_fits(x as int, bar_width as int, level),
    ensures
        r == spec_battery_bar(x, bar_width, level),
{
    let color = level_color(level);
    let height = to_u32(BAR_HEIGHT);
    let track_rect = Rect { x, y: BAR_TOP, width: to_u32(bar_width), height };
    let (track_color, fill) = match level {
        Some(l) => {
            let percent: i32 = if l <= 100 {
                l as i32
            } else {
                100
            };
            let filled = (bar_width * percent + 50) / 100;
            let drawn_len = if filled >= BAR_HEIGHT {
                filled
            } else {
                BAR_HEIGHT
            };
            (
                dimmed(color, TRACK_DIM_NUM, TRACK_DIM_DEN),
                Some(
                    BarFill {
                        visible: Rect { x, y: BAR_TOP, width: to_u32(filled), height },
                        drawn: Rect { x, y: BAR_TOP, width: to_u32(drawn_len), height },
                    },
                ),
            )
        },
        None => (color, None),
    };
    BatteryBar {
        track: track_rect,
        track_color,
        fill,
        color,
        level,
        text_x: x + bar_width / 2,
        text_y: TEXT_CENTER_Y,
    }
}

/// The level a `BatteryStatus` carries, if it carries one.
pub fn level_of(battery: BatteryStatus) -> (r: Option<u8>)
    ensures
        r == battery.spec_level(),
{
    battery.level()
}

/// The width (px) of one bar on a screen `width` px wide: half of what is left once both
/// margins and the gap between the bars are subtracted.
pub open spec fn spec_bar_width(width: int) -> int {
    trunc_div(width - 2 * SIDE_MARGIN - CENTER_GAP, 2)
}

/// Whether both bars can be laid out on a screen `width` px wide for the levels of `status`
/// without the arithmetic leaving `i32`: the width left once the margins and the gap are
/// subtracted, where the right bar starts, and each bar.
pub open spec fn spec_bars_fit(width: int, status: Status) -> bool {
    let bar_width = spec_bar_width(width);
    &&& i32::MIN <= width - 2 * SIDE_MARGIN - CENTER_GAP
    &&& spec_bar_fits(SIDE_MARGIN as int, bar_width, status.batteries[HALF_LEFT as int].spec_level())
    &&& i32::MIN <= width - SIDE_MARGIN - bar_width <= i32::MAX
    &&& spec_bar_fits(
        width - SIDE_MARGIN - bar_width,
        bar_width,
        status.batteries[HALF_RIGHT as int].spec_level(),
    )
}

/// Whether a bar of `bar_width` starting at `x` can be laid out for `level`.
fn bar_fits(x: i64, bar_width: i64, level: Option<u8>) -> (r: bool)
    requires
        -0x2_0000_0000 <= x <= 0x2_0000_0000,
        -0x1_0000_0000 <= bar_width <= 0x1_0000_0000,
    ensures
        r == spec_bar_fits(x as int, bar_width as int, level),
{
    if let Some(l) = level {
        let percent: i64 = if l <= 100 {
            l as i64
        } else {
            100
        };
        assert(-0x1_0000_0000 * 100 <= bar_width * percent <= 0x1_0000_0000 * 100)
            by (nonlinear_arith)
            requires
                -0x1_0000_0000 <= bar_width <= 0x1_0000_0000,
                0 <= percent <= 100,
        ;
        let filled = bar_width * percent;
        if filled < i32::MIN as i64 || filled + 50 > i32::MAX as i64 {
            return false;
        }
    }
    let center = x + bar_width / 2;
    i32::MIN as i64 <= center && center <= i32::MAX as i64
}

/// Whether [`battery_bars`] can lay out both bars on a screen `width` px wide for the levels of
/// `status`.
pub fn bars_fit(width: i32, status: &Status) -> (r: bool)
    ensures
        r == spec_bars_fit(width as int, *status),
{
    let rest = width as i64 - 2 * SIDE_MARGIN as i64 - CENTER_GAP as i64;
    if rest < i32::MIN as i64 {
        return false;
    }
    let bar_width = rest / 2;
    if !bar_fits(SIDE_MARGIN as i64, bar_width, level_of(status.batteries[HALF_LEFT])) {
        return false;
    }
    let right = width as i64 - SIDE_MARGIN as i64 - bar_width;
    if right < i32::MIN as i64 || right > i32::MAX as i64 {
        return false;
    }
    bar_fits(right, bar_width, level_of(status.batteries[HALF_RIGHT]))
}

/// Lays out the battery of both halves along the bottom of a screen `width` px wide: the left
/// bar starts at [`SIDE_MARGIN`] and the right one ends the same distance from the right edge.
pub fn battery_bars(width: i32, status: &Status) -> (r: [BatteryBar; 2])
    requires
        spec_bars_fit(width as int, *status),
    ensures
        r[0] == spec_battery_bar(
            SIDE_MARGIN,
            spec_bar_width(width as int) as i32,
            status.batteries[HALF_LEFT as int].spec_level(),
        ),
        r[1] == spec_battery_bar(
            (width - SIDE_MARGIN - spec_bar_width(width as int)) as i32,
            spec_bar_width(width as int) as i32,
            status.batteries[HALF_RIGHT as int].spec_level(),
        ),
        width >= 2 * SIDE_MARGIN + CENTER_GAP ==> r[1].track.x + r[1].track.width == width - SIDE_MARGIN,
{
    let bar_width = (width - 2 * SIDE_MARGIN - CENTER_GAP) / 2;
    let left = battery_bar(SIDE_MARGIN, bar_width, level_of(status.batteries[HALF_LEFT]));
    let right = battery_bar(
        width - SIDE_MARGIN - bar_width,
        bar_width,
        level_of(status.batteries[HALF_RIGHT]),
    );
    [left, right]
}

/// The filled part of a bar is never longer than the bar, empty at level 0 and full from 100
/// percent up.
pub proof fn lemma_fill_within_bar(bar_width: int, level: u8)
    requires
        0 <= bar_width,
    ensures
        0 <= spec_filled(bar_width, level) <= bar_width,
        level >= 100 ==> spec_filled(bar_width, level) == bar_width,
        level == 0 ==> spec_filled(bar_width, level) == 0,
{
    let p: int = if level <= 100 {
        level as int
    } else {
        100
    };
    assert(0 <= (bar_width * p + 50) / 100 <= bar_width) by (nonlinear_arith)
        requires
            0 <= p <= 100,
            0 <= bar_width,
    ;
    assert(p == 100 ==> (bar_width * p + 50) / 100 == bar_width) by (nonlinear_arith)
        requires
            0 <= bar_width,
    ;
    assert(p == 0 ==> bar_width * p == 0) by (nonlinear_arith);
}

/// The bar turns from the middle to the low color where the indicator LEDs start warning of a
/// low battery.
pub proof fn lemma_low_color_matches_indicator()
    ensures
        MIDDLE_PERCENT == crate::indicator::LOW_BATTERY_PERCENT,
{
}

/// A bar is filled in proportion to the level, rounded to the nearest pixel: up to 100 percent
/// the filled length is within half a pixel of that share of the bar, and a higher level never
/// fills less.
pub proof fn lemma_fill_proportional(bar_width: int, level: u8, other: u8)
    requires
        0 <= bar_width,
    ensures
        level <= 100 ==> -50 < 100 * spec_filled(bar_width, level) - bar_width * level <= 50,
        level <= other ==> spec_filled(bar_width, level) <= spec_filled(bar_width, other),
{
    let p = spec_percent(level);
    let q = spec_percent(other);
    assert(0 <= bar_width * p) by (nonlinear_arith)
        requires
            0 <= bar_width,
            0 <= p,
    ;
    assert(-50 < 100 * ((bar_width * p + 50) / 100) - bar_width * p <= 50) by (nonlinear_arith);
    assert(p <= q ==> (bar_width * p + 50) / 100 <= (bar_width * q + 50) / 100) by (nonlinear_arith)
        requires
            0 <= bar_width,
            0 <= p,
    ;
}

} // verus!
