//! The top row of the status screen: the transport that carries the reports on the left and the
//! modifiers being held on the right, both centered on one line.
use vstd::prelude::*;

use crate::connection::{ConnectionStatus, ConnectionType};
use crate::graphics::{rgb565, spec_rgb565};
use crate::status_screen::band::Band;
use crate::status_screen::fonts::{ScreenFont, font_box, spec_font_box};
use crate::status_screen::{IconSize, Icons, font_band, foreground, spec_to_i32, to_i32};

verus! {

/// Distance (px) the transport and the modifiers keep from the left and right edges.
pub const MARGIN: i32 = 12;

/// Vertical center (px) of the top row.
pub const HEADER_CENTER_Y: i32 = 32;

/// Shift (px) applied to the transport icon, so that it lines up with the label beside it.
pub const CONN_ICON_OFFSET_Y: i32 = -3;

/// Gap (px) between the transport icon and its label.
pub const ICON_LABEL_GAP: i32 = 0;

/// Width (px) of the slot one modifier symbol is centered in.
pub const MODIFIER_SLOT_WIDTH: i32 = 26;

/// Gap (px) between two modifier slots.
pub const MODIFIER_SLOT_GAP: i32 = 4;

/// Shift (px) applied to the modifier icons.
pub const MODIFIER_ICON_OFFSET_Y: i32 = -2;

/// Top row (px) of an icon `height` px tall centered on [`HEADER_CENTER_Y`] and shifted by
/// `offset`.
pub open spec fn spec_icon_top(height: u32, offset: i32) -> int {
    HEADER_CENTER_Y - spec_to_i32(height) / 2 + offset
}

/// Top left corner of `icon` when it is centered on [`HEADER_CENTER_Y`] and then shifted by
/// `offset`, with its left edge at `x`.
pub fn icon_origin(x: i32, icon: IconSize, offset: i32) -> (r: (i32, i32))
    requires
        icon.small(),
        -0x1000 <= offset <= 0x1000,
    ensures
        r.0 == x,
        r.1 == spec_icon_top(icon.height, offset),
{
    (x, HEADER_CENTER_Y - to_i32(icon.height) / 2 + offset)
}

/// Rows a header icon covers when it is drawn with `offset`.
pub fn icon_band(icon: IconSize, offset: i32) -> (r: Band)
    requires
        icon.small(),
        -0x1000 <= offset <= 0x1000,
    ensures
        r.top == spec_icon_top(icon.height, offset),
        r.height == icon.height,
        r == spec_icon_band(icon, offset),
{
    let (_, top) = icon_origin(0, icon, offset);
    Band { top, height: to_i32(icon.height) }
}

/// Rows a header icon `icon` covers when it is drawn with `offset`.
pub open spec fn spec_icon_band(icon: IconSize, offset: i32) -> Band {
    Band { top: spec_icon_top(icon.height, offset) as i32, height: spec_to_i32(icon.height) }
}

/// The band `band` grown to cover the first `k` modifier icons.
pub open spec fn spec_with_modifiers(band: Band, icons: Icons, k: int) -> Band
    decreases k,
{
    if k <= 0 {
        band
    } else {
        spec_with_modifiers(band, icons, k - 1).spec_union(
            spec_icon_band(icons.modifiers[k - 1], MODIFIER_ICON_OFFSET_Y),
        )
    }
}

/// Rows the top band covers.
pub open spec fn spec_band(icons: Icons) -> Band {
    spec_with_modifiers(
        crate::status_screen::spec_font_band(ScreenFont::Label, HEADER_CENTER_Y as int).spec_union(
            spec_icon_band(icons.usb, CONN_ICON_OFFSET_Y),
        ).spec_union(spec_icon_band(icons.bluetooth, CONN_ICON_OFFSET_Y)),
        icons,
        4,
    )
}

/// Rows the top band covers: the tallest glyph of the label font, and every icon where it is
/// drawn, so that switching transports cannot leave part of the label behind.
pub fn band(icons: &Icons) -> (r: Band)
    requires
        icons.small(),
    ensures
        r == spec_band(*icons),
        r.top <= HEADER_CENTER_Y + spec_font_box(ScreenFont::Label).top,
        r.end() >= HEADER_CENTER_Y + spec_font_box(ScreenFont::Label).top + spec_font_box(
            ScreenFont::Label,
        ).height,
        -0x2000 <= r.top <= 0x2000,
        0 <= r.height,
        r.top + r.height <= 0x4000,
{
    let mut band = font_band(font_box(ScreenFont::Label), HEADER_CENTER_Y);
    band = band.union(icon_band(icons.usb, CONN_ICON_OFFSET_Y));
    band = band.union(icon_band(icons.bluetooth, CONN_ICON_OFFSET_Y));
    let ghost start = band;
    let mut i: usize = 0;
    while i < 4
        invariant
            icons.small(),
            i <= 4,
            band == spec_with_modifiers(start, *icons, i as int),
            start == crate::status_screen::spec_font_band(ScreenFont::Label, HEADER_CENTER_Y as int).spec_union(
                spec_icon_band(icons.usb, CONN_ICON_OFFSET_Y),
            ).spec_union(spec_icon_band(icons.bluetooth, CONN_ICON_OFFSET_Y)),
            -0x2000 <= band.top <= 0x2000,
            0 <= band.height,
            band.top + band.height <= 0x4000,
            band.top <= HEADER_CENTER_Y + spec_font_box(ScreenFont::Label).top,
            band.end() >= HEADER_CENTER_Y + spec_font_box(ScreenFont::Label).top
                + spec_font_box(ScreenFont::Label).height,
        decreases 4 - i,
    {
        let icon = icons.modifiers[i];
        assert(icon.small());
        band = band.union(icon_band(icon, MODIFIER_ICON_OFFSET_Y));
        i = i + 1;
    }
    band
}

/// The icon of a transport.
#[derive(Clone, Copy, PartialEq, Eq, Debug, Structural)]
pub enum TransportIcon {
    Usb,
    Bluetooth,
}

/// The label beside the transport icon.
#[derive(Clone, Copy, PartialEq, Eq, Debug, Structural)]
pub enum TransportLabel {
    /// `USB`.
    Usb,
    /// `BT` followed by the BLE profile number.
    Bluetooth(u8),
    /// `---`, when neither transport carries reports.
    Disconnected,
}

/// How the transport is shown in the top left corner.
#[derive(Clone, Copy, PartialEq, Eq, Debug)]
pub struct ConnectionView {
    /// The icon, where it goes and its color, when a transport carries the reports.
    pub icon: Option<(TransportIcon, i32, i32, u16)>,
    /// Left edge (px) of the label.
    pub label_x: i32,
    /// Vertical center (px) of the label.
    pub label_y: i32,
    /// The label.
    pub label: TransportLabel,
    /// Color of the label.
    pub label_color: u16,
}

/// Colors that correspond to the BLE profile number, in the order of the indicator LEDs.
pub open spec fn spec_profile_color(profile: u8) -> Option<u16> {
    if profile == 0 {
        Some(spec_rgb565(0, 63, 0))
    } else if profile == 1 {
        Some(spec_rgb565(31, 0, 0))
    } else if profile == 2 {
        Some(spec_rgb565(0, 0, 31))
    } else if profile == 3 {
        Some(spec_rgb565(31, 63, 0))
    } else if profile == 4 {
        Some(spec_rgb565(0, 63, 31))
    } else {
        None
    }
}

fn profile_color(profile: u8) -> (r: Option<u16>)
    ensures
        r == spec_profile_color(profile),
{
    match profile {
        0 => Some(rgb565(0, 63, 0)),
        1 => Some(rgb565(31, 0, 0)),
        2 => Some(rgb565(0, 0, 31)),
        3 => Some(rgb565(31, 63, 0)),
        4 => Some(rgb565(0, 63, 31)),
        _ => None,
    }
}

/// Lays out the transport that reports are routed to, in the top left corner.
///
/// The icon keeps a fixed color per transport while the label carries the profile color, so the
/// two together say both which transport and which profile is in use.
pub fn draw_connection(connection: ConnectionStatus, icons: &Icons) -> (r: ConnectionView)
    requires
        icons.small(),
    ensures
        r.label_y == HEADER_CENTER_Y,
        connection.spec_active() == Some(ConnectionType::Usb) ==> {
            &&& r.icon matches Some((icon, x, y, color)) && icon == TransportIcon::Usb && x == MARGIN
                && y == spec_icon_top(icons.usb.height, CONN_ICON_OFFSET_Y) && color
                == spec_rgb565(31, 32, 0)
            &&& r.label == TransportLabel::Usb
            &&& r.label_color == spec_rgb565(31, 63, 31)
            &&& r.label_x == MARGIN + spec_to_i32(icons.usb.width) + ICON_LABEL_GAP
        },
        connection.spec_active() == Some(ConnectionType::Ble) ==> {
            &&& r.icon matches Some((icon, x, y, color)) && icon == TransportIcon::Bluetooth && x
                == MARGIN && y == spec_icon_top(icons.bluetooth.height, CONN_ICON_OFFSET_Y) && color
                == spec_rgb565(0, 32, 31)
            &&& r.label == TransportLabel::Bluetooth(connection.ble.profile)
            &&& r.label_color == (match spec_profile_color(connection.ble.profile) {
                Some(c) => c,
                None => spec_rgb565(31, 63, 31),
            })
            &&& r.label_x == MARGIN + spec_to_i32(icons.bluetooth.width) + ICON_LABEL_GAP
        },
        connection.spec_active().is_none() ==> {
            &&& r.icon.is_none()
            &&& r.label == TransportLabel::Disconnected
            &&& r.label_color == spec_rgb565(8, 16, 8)
            &&& r.label_x == MARGIN
        },
{
    match connection.decide_active() {
        Some(ConnectionType::Usb) => {
            let (x, y) = icon_origin(MARGIN, icons.usb, CONN_ICON_OFFSET_Y);
            ConnectionView {
                icon: Some((TransportIcon::Usb, x, y, rgb565(31, 32, 0))),
                label_x: MARGIN + to_i32(icons.usb.width) + ICON_LABEL_GAP,
                label_y: HEADER_CENTER_Y,
                label: TransportLabel::Usb,
                label_color: foreground(),
            }
        },
        Some(ConnectionType::Ble) => {
            let color = match profile_color(connection.ble.profile) {
                Some(c) => c,
                None => foreground(),
            };
            let (x, y) = icon_origin(MARGIN, icons.bluetooth, CONN_ICON_OFFSET_Y);
            ConnectionView {
                icon: Some((TransportIcon::Bluetooth, x, y, rgb565(0, 32, 31))),
                label_x: MARGIN + to_i32(icons.bluetooth.width) + ICON_LABEL_GAP,
                label_y: HEADER_CENTER_Y,
                label: TransportLabel::Bluetooth(connection.ble.profile),
                label_color: color,
            }
        },
        None => ConnectionView {
            icon: None,
            label_x: MARGIN,
            label_y: HEADER_CENTER_Y,
            label: TransportLabel::Disconnected,
            label_color: rgb565(8, 16, 8),
        },
    }
}

/// Whether modifier `kind` (0 Control, 1 Option, 2 Shift, 3 Command) is held on either side in
/// the packed bits of a modifier combination: the left keys are bits 0 to 3 and the right keys
/// bits 4 to 7, each in the order Control, Shift, Option, Command.
pub open spec fn spec_modifier_held(bits: u8, kind: int) -> bool {
    let bit: u8 = if kind == 0 {
        0
    } else if kind == 1 {
        2
    } else if kind == 2 {
        1
    } else {
        3
    };
    (bits >> bit) & 1 == 1 || (bits >> ((bit + 4) as u8)) & 1 == 1
}

/// Whether modifier `kind` is held on either side.
pub fn modifier_held(bits: u8, kind: usize) -> (r: bool)
    requires
        kind < 4,
    ensures
        r == spec_modifier_held(bits, kind as int),
{
    let bit: u8 = if kind == 0 {
        0
    } else if kind == 1 {
        2
    } else if kind == 2 {
        1
    } else {
        3
    };
    (bits >> bit) & 1 == 1 || (bits >> (bit + 4)) & 1 == 1
}

/// One modifier symbol of the top row.
#[derive(Clone, Copy, PartialEq, Eq, Debug)]
pub struct ModifierSlot {
    /// Top left corner of the icon.
    pub x: i32,
    /// Top left corner of the icon.
    pub y: i32,
    /// Whether the modifier is held, which lights the icon.
    pub held: bool,
    /// Color of the icon.
    pub color: u16,
}

/// Lays out the four modifier symbols in the top right corner of a screen `width` px wide, lit
/// for the ones being held. The left and the right key of a modifier are merged, and the row is
/// placed from the right edge inwards so that it stays anchored to the corner.
pub fn draw_modifiers(width: i32, modifiers: u8, icons: &Icons) -> (r: Vec<ModifierSlot>)
    requires
        0 <= width,
        icons.small(),
    ensures
        r@.len() == 4,
        forall|k: int|
            0 <= k < 4 ==> {
                let right = width - MARGIN - (3 - k) * (MODIFIER_SLOT_WIDTH + MODIFIER_SLOT_GAP);
                &&& (#[trigger] r@[k]).held == spec_modifier_held(modifiers, k)
                &&& r@[k].x == right - MODIFIER_SLOT_WIDTH / 2 - spec_to_i32(icons.modifiers[k].width) / 2
                &&& r@[k].y == spec_icon_top(icons.modifiers[k].height, MODIFIER_ICON_OFFSET_Y)
                &&& r@[k].color == (if r@[k].held {
                    spec_rgb565(31, 63, 31)
                } else {
                    spec_rgb565(8, 16, 8)
                })
            },
{
    let mut slots: Vec<ModifierSlot> = Vec::new();
    let mut k: usize = 0;
    while k < 4
        invariant
            0 <= width,
            icons.small(),
            k <= 4,
            slots@.len() == k,
            forall|j: int|
                0 <= j < k ==> {
                    let right = width - MARGIN - (3 - j) * (MODIFIER_SLOT_WIDTH + MODIFIER_SLOT_GAP);
                    &&& (#[trigger] slots@[j]).held == spec_modifier_held(modifiers, j)
                    &&& slots@[j].x == right - MODIFIER_SLOT_WIDTH / 2 - spec_to_i32(
                        icons.modifiers[j].width,
                    ) / 2
                    &&& slots@[j].y == spec_icon_top(icons.modifiers[j].height, MODIFIER_ICON_OFFSET_Y)
                    &&& slots@[j].color == (if slots@[j].held {
                        spec_rgb565(31, 63, 31)
                    } else {
                        spec_rgb565(8, 16, 8)
                    })
                },
        decreases 4 - k,
    {
        let icon = icons.modifiers[k];
        assert(icon.small());
        let steps: i32 = (3 - k) as i32;
        let right = width - MARGIN - steps * (MODIFIER_SLOT_WIDTH + MODIFIER_SLOT_GAP);
        let x = right - MODIFIER_SLOT_WIDTH / 2 - to_i32(icon.width) / 2;
        let (_, y) = icon_origin(x, icon, MODIFIER_ICON_OFFSET_Y);
        let held = modifier_held(modifiers, k);
        let color = if held {
            foreground()
        } else {
            rgb565(8, 16, 8)
        };
        slots.push(ModifierSlot { x, y, held, color });
        k = k + 1;
    }
    slots
}

/// Each modifier is held when its left or its right key is: Control is bit 0 or bit 4 of a
/// modifier combination, Shift bit 1 or bit 5, Option bit 2 or bit 6 and Command bit 3 or bit 7.
pub proof fn lemma_modifier_keys(bits: u8)
    ensures
        spec_modifier_held(bits, 0) <==> bits & 0x11u8 != 0,
        spec_modifier_held(bits, 1) <==> bits & 0x44u8 != 0,
        spec_modifier_held(bits, 2) <==> bits & 0x22u8 != 0,
        spec_modifier_held(bits, 3) <==> bits & 0x88u8 != 0,
{
    assert(((bits >> 0u8) & 1u8 == 1u8 || (bits >> 4u8) & 1u8 == 1u8) <==> bits & 0x11u8 != 0u8)
        by (bit_vector);
    assert(((bits >> 2u8) & 1u8 == 1u8 || (bits >> 6u8) & 1u8 == 1u8) <==> bits & 0x44u8 != 0u8)
        by (bit_vector);
    assert(((bits >> 1u8) & 1u8 == 1u8 || (bits >> 5u8) & 1u8 == 1u8) <==> bits & 0x22u8 != 0u8)
        by (bit_vector);
    assert(((bits >> 3u8) & 1u8 == 1u8 || (bits >> 7u8) & 1u8 == 1u8) <==> bits & 0x88u8 != 0u8)
        by (bit_vector);
}

/// The label of a BLE profile takes the color the indicator LED shows for that profile, each lit
/// channel at full strength: green, red, blue, yellow and cyan for profiles 0 to 4, as the raw
/// `Rgb565` values 0x07E0, 0xF800, 0x001F, 0xFFE0 and 0x07FF. Other profiles have no color.
pub proof fn lemma_profile_colors_match_indicator(profile: u8)
    ensures
        crate::indicator::spec_profile_color(profile as int) matches Some(led) ==> spec_profile_color(
            profile,
        ) == Some(
            spec_rgb565(
                if led.r > 0 { 31u8 } else { 0u8 },
                if led.g > 0 { 63u8 } else { 0u8 },
                if led.b > 0 { 31u8 } else { 0u8 },
            ),
        ),
        crate::indicator::spec_profile_color(profile as int).is_none() <==> spec_profile_color(
            profile,
        ).is_none(),
        profile == 0 ==> spec_profile_color(profile) == Some(0x07E0u16),
        profile == 1 ==> spec_profile_color(profile) == Some(0xF800u16),
        profile == 2 ==> spec_profile_color(profile) == Some(0x001Fu16),
        profile == 3 ==> spec_profile_color(profile) == Some(0xFFE0u16),
        profile == 4 ==> spec_profile_color(profile) == Some(0x07FFu16),
{
    assert(spec_rgb565(0, 63, 0) == 0x07E0u16) by (bit_vector);
    assert(spec_rgb565(31, 0, 0) == 0xF800u16) by (bit_vector);
    assert(spec_rgb565(0, 0, 31) == 0x001Fu16) by (bit_vector);
    assert(spec_rgb565(31, 63, 0) == 0xFFE0u16) by (bit_vector);
    assert(spec_rgb565(0, 63, 31) == 0x07FFu16) by (bit_vector);
}

} // verus!
