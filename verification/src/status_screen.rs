//! Status screen drawn on the LCD.
//!
//! The screen is laid out in three bands on the 280x240 landscape panel: the transport and the
//! held modifiers on the top row, the layer in the middle as the largest element, and the battery
//! of each half at the bottom. On top of them comes the brightness overlay, shown only while the
//! backlight is being adjusted.
//!
//! Each of the four parts knows the rows it occupies as a [`Band`]. [`plan_redraw`] takes what the
//! panel already shows and decides which parts the new [`Status`] changes, and which rows those
//! come to; the drawing itself is done by whoever owns the panel.
pub mod band;
pub mod battery;
pub mod brightness;
pub mod fonts;
pub mod header;

use vstd::prelude::*;

use crate::connection::{BatteryStatus, ConnectionStatus};
use vstd::std_specs::cmp::PartialEqSpec;
use crate::graphics::rgb565;
use crate::status_screen::band::{Band, DirtyRows, PART_COUNT};
use crate::status_screen::fonts::{FontBox, ScreenFont, font_box};

verus! {

/// Number of halves whose battery is shown.
pub const HALF_COUNT: usize = 2;

/// Index of the left half in [`Status::batteries`].
pub const HALF_LEFT: usize = 0;

/// Index of the right half in [`Status::batteries`].
pub const HALF_RIGHT: usize = 1;

/// Vertical center (px) of the layer.
pub const LAYER_CENTER_Y: i32 = 118;

/// Number of frames the brightness overlay takes to come in from the right edge, and as many
/// again to leave.
pub const BRIGHTNESS_SLIDE_FRAMES: u8 = 6;

/// The brightness overlay, and how far in it currently is.
#[derive(Clone, Copy, PartialEq, Eq, Debug, Structural)]
pub struct BrightnessOverlay {
    /// How far up the backlight steps the brightness is, from 0 for off to 100 for the brightest.
    pub percent: u8,
    /// How far the overlay has come in, from 1 for barely on screen up to
    /// [`BRIGHTNESS_SLIDE_FRAMES`] for fully in.
    pub slide: u8,
}

/// Everything the screen shows.
#[derive(Clone, Copy, Debug)]
pub struct Status {
    /// Host connection of the dongle, both transports included.
    pub connection: ConnectionStatus,
    /// Active layer.
    pub layer: u8,
    /// Modifiers currently held, as the packed bits of a modifier combination.
    pub modifiers: u8,
    /// Battery of each half, indexed by [`HALF_LEFT`] and [`HALF_RIGHT`].
    pub batteries: [BatteryStatus; HALF_COUNT],
    /// Brightness overlay, `None` while it is not on screen.
    pub brightness: Option<BrightnessOverlay>,
}

impl Status {
    /// Whether the two states show the same screen: every field agrees.
    pub open spec fn same(self, other: Status) -> bool {
        &&& self.connection == other.connection
        &&& self.layer == other.layer
        &&& self.modifiers == other.modifiers
        &&& self.batteries@ == other.batteries@
        &&& self.brightness == other.brightness
    }

    /// The state before any event has been received: nothing connected, layer 0, no modifier
    /// held, both batteries unknown and no brightness overlay.
    pub open spec fn spec_new() -> Self {
        Status {
            connection: ConnectionStatus::new_spec(),
            layer: 0,
            modifiers: 0,
            batteries: [BatteryStatus::Unavailable, BatteryStatus::Unavailable],
            brightness: None,
        }
    }

    /// The state before any event has been received: nothing connected, layer 0, no modifier
    /// held, both batteries unknown and no brightness overlay.
    pub fn new() -> (r: Self)
        ensures
            r.same(Self::spec_new()),
            r.batteries@ == seq![BatteryStatus::Unavailable, BatteryStatus::Unavailable],
    {
        let r = Status {
            connection: ConnectionStatus::new(),
            layer: 0,
            modifiers: 0,
            batteries: [BatteryStatus::Unavailable; HALF_COUNT],
            brightness: None,
        };
        assert(r.batteries@ =~= seq![BatteryStatus::Unavailable, BatteryStatus::Unavailable]);
        assert(Self::spec_new().batteries@ =~= seq![
            BatteryStatus::Unavailable,
            BatteryStatus::Unavailable,
        ]);
        r
    }
}

impl PartialEq for Status {
    fn eq(&self, other: &Self) -> (r: bool) {
        self.connection == other.connection && self.layer == other.layer && self.modifiers
            == other.modifiers && self.batteries[0] == other.batteries[0] && self.batteries[1]
            == other.batteries[1] && self.brightness == other.brightness
    }
}

impl vstd::std_specs::cmp::PartialEqSpecImpl for Status {
    open spec fn obeys_eq_spec() -> bool {
        true
    }

    open spec fn eq_spec(&self, other: &Self) -> bool {
        self.connection == other.connection && self.layer == other.layer && self.modifiers
            == other.modifiers && self.batteries[0] == other.batteries[0] && self.batteries[1]
            == other.batteries[1] && self.brightness == other.brightness
    }
}

/// What two statuses compare to is whether they show the same screen.
pub proof fn lemma_eq_is_same(a: Status, b: Status)
    ensures
        a.eq_spec(&b) <==> a.same(b),
{
    if a.eq_spec(&b) {
        assert(a.batteries@ =~= b.batteries@);
    }
}

/// Where the four parts of the screen lie, and how tall the screen is.
#[derive(Clone, Copy, Debug)]
pub struct Layout {
    /// Height (px) of the screen.
    pub height: i32,
    /// Rows of the top row: transport and modifiers.
    pub header: Band,
    /// Rows of the brightness overlay.
    pub overlay: Band,
    /// Rows of the layer.
    pub layer: Band,
    /// Rows of the battery band.
    pub battery: Band,
}

/// Bound on the rows a part of the layout may reach, far beyond any panel.
pub const LAYOUT_LIMIT: i32 = 0x100_0000;

/// Whether a band of the layout stays within [`LAYOUT_LIMIT`].
pub open spec fn band_bounded(b: Band) -> bool {
    -LAYOUT_LIMIT <= b.top <= LAYOUT_LIMIT && 0 <= b.height <= LAYOUT_LIMIT
}

impl Layout {
    /// Whether every part lies within [`LAYOUT_LIMIT`] and the screen height is not negative.
    pub open spec fn wf(self) -> bool {
        &&& 0 <= self.height
        &&& band_bounded(self.header)
        &&& band_bounded(self.overlay)
        &&& band_bounded(self.layer)
        &&& band_bounded(self.battery)
    }

    /// Whether the parts are listed from the top of the screen down, each nonempty.
    pub open spec fn ordered(self) -> bool {
        &&& self.header.height > 0
        &&& self.overlay.height > 0
        &&& self.layer.height > 0
        &&& self.battery.height > 0
        &&& self.header.top <= self.overlay.top
        &&& self.overlay.top <= self.layer.top
        &&& self.layer.top <= self.battery.top
    }
}

/// Which parts a redraw clears and draws again, and the rows that come to.
pub struct RedrawPlan {
    /// Whether the whole screen is drawn, which is the case for the first frame.
    pub full: bool,
    /// Whether the top row is drawn.
    pub header: bool,
    /// Whether the brightness overlay band is cleared, and the overlay drawn when there is one.
    pub overlay: bool,
    /// Whether the layer is drawn.
    pub layer: bool,
    /// Whether the battery band is drawn.
    pub battery: bool,
    /// The rows that changed.
    pub rows: DirtyRows,
}

/// A band added to the rows of a redraw when `dirty` holds.
pub open spec fn push_if(rows: Seq<Band>, dirty: bool, band: Band) -> Seq<Band> {
    if dirty {
        band::push_band(rows, band)
    } else {
        rows
    }
}

/// The rows of a redraw of the parts flagged dirty, added from the top of the screen down.
pub open spec fn dirty_rows(
    layout: Layout,
    header: bool,
    overlay: bool,
    layer: bool,
    battery: bool,
) -> Seq<Band> {
    push_if(
        push_if(
            push_if(push_if(Seq::empty(), header, layout.header), overlay, layout.overlay),
            layer,
            layout.layer,
        ),
        battery,
        layout.battery,
    )
}

/// Whether the layer and the overlay are redrawn together: one of them changed while the overlay
/// is on screen before or after, and the two bands share a row.
pub open spec fn coupled(layout: Layout, status: Status, shown: Status) -> bool {
    (status.brightness.is_some() || shown.brightness.is_some()) && layout.overlay.shares_row(
        layout.layer,
    )
}

/// Whether the top row is redrawn: the transport or the held modifiers changed.
pub open spec fn spec_header_dirty(status: Status, shown: Status) -> bool {
    status.connection != shown.connection || status.modifiers != shown.modifiers
}

/// Whether the layer is redrawn.
pub open spec fn spec_layer_dirty(layout: Layout, status: Status, shown: Status) -> bool {
    status.layer != shown.layer || (coupled(layout, status, shown) && status.brightness
        != shown.brightness)
}

/// Whether the overlay band is redrawn.
pub open spec fn spec_overlay_dirty(layout: Layout, status: Status, shown: Status) -> bool {
    status.brightness != shown.brightness || (coupled(layout, status, shown) && status.layer
        != shown.layer)
}

/// Whether the battery band is redrawn.
pub open spec fn spec_battery_dirty(status: Status, shown: Status) -> bool {
    status.batteries@ != shown.batteries@
}

/// Pushes `band` onto `rows` when `dirty` holds.
fn push_dirty(rows: &mut DirtyRows, dirty: bool, band: Band)
    requires
        old(rows).wf(),
        band_bounded(band),
        band::all_bounded(old(rows)@),
    ensures
        final(rows).wf(),
        final(rows)@ == push_if(old(rows)@, dirty, band),
        band::all_bounded(final(rows)@),
{
    if dirty {
        proof {
            band::lemma_push_bounded(old(rows)@, band);
        }
        rows.push(band);
    }
}

/// Decides what a redraw of `status` over a screen that shows `shown` clears, draws and sends.
///
/// `shown` is `None` while the panel shows nothing yet. That first frame draws every part and
/// sends the whole screen, because the rows between the parts belong to none of them and hold
/// whatever the panel held after reset.
///
/// Otherwise a part is redrawn when what it shows changed. The overlay covers the layer, and a
/// band is cleared across the full width, so while the overlay is on screen before or after the
/// redraw, a change to either of the two redraws both. The rows are added from the top of the
/// screen down: header, overlay, layer, battery.
pub fn plan_redraw(layout: &Layout, status: &Status, shown: Option<Status>) -> (plan: RedrawPlan)
    requires
        layout.wf(),
    ensures
        plan.rows.wf(),
        plan.full == shown.is_none(),
        shown.is_none() ==> {
            &&& plan.header && plan.overlay && plan.layer && plan.battery
            &&& plan.rows@ == seq![Band { top: 0, height: layout.height }]
        },
        shown matches Some(shown) ==> {
            &&& plan.header == spec_header_dirty(*status, shown)
            &&& plan.layer == spec_layer_dirty(*layout, *status, shown)
            &&& plan.overlay == spec_overlay_dirty(*layout, *status, shown)
            &&& plan.battery == spec_battery_dirty(*status, shown)
            &&& plan.rows@ == dirty_rows(
                *layout,
                plan.header,
                plan.overlay,
                plan.layer,
                plan.battery,
            )
        },
{
    let mut rows = DirtyRows::new();
    match shown {
        None => {
            rows.push(Band { top: 0, height: layout.height });
            RedrawPlan { full: true, header: true, overlay: true, layer: true, battery: true, rows }
        },
        Some(shown) => {
            let header = status.connection != shown.connection || status.modifiers
                != shown.modifiers;
            let mut layer = status.layer != shown.layer;
            let battery = status.batteries[0] != shown.batteries[0] || status.batteries[1]
                != shown.batteries[1];
            let mut overlay = status.brightness != shown.brightness;
            proof {
                if !battery {
                    assert(status.batteries@ =~= shown.batteries@);
                }
            }

            if (status.brightness.is_some() || shown.brightness.is_some())
                && layout.overlay.intersects(layout.layer) {
                let both = layer || overlay;
                layer = both;
                overlay = both;
            }
            push_dirty(&mut rows, header, layout.header);
            push_dirty(&mut rows, overlay, layout.overlay);
            push_dirty(&mut rows, layer, layout.layer);
            push_dirty(&mut rows, battery, layout.battery);
            RedrawPlan { full: false, header, overlay, layer, battery, rows }
        },
    }
}

/// Width and height (px) of an icon bitmap.
#[derive(Clone, Copy, PartialEq, Eq, Debug)]
pub struct IconSize {
    pub width: u32,
    pub height: u32,
}

impl IconSize {
    /// Whether the icon is no larger than 4096 px either way, which any icon of a panel is.
    pub open spec fn small(self) -> bool {
        self.width <= 0x1000 && self.height <= 0x1000
    }
}

/// The sizes of the icons the screen draws.
#[derive(Clone, Copy, PartialEq, Eq, Debug)]
pub struct Icons {
    /// The USB transport icon.
    pub usb: IconSize,
    /// The Bluetooth transport icon.
    pub bluetooth: IconSize,
    /// The modifier icons: Control, Option, Shift, Command.
    pub modifiers: [IconSize; 4],
    /// The sun above the brightness bar.
    pub sun: IconSize,
}

impl Icons {
    /// Whether every icon is [`IconSize::small`].
    pub open spec fn small(self) -> bool {
        &&& self.usb.small()
        &&& self.bluetooth.small()
        &&& forall|i: int| 0 <= i < 4 ==> (#[trigger] self.modifiers[i]).small()
        &&& self.sun.small()
    }
}

/// `value` as an `i32`, saturating instead of wrapping.
pub open spec fn spec_to_i32(value: u32) -> i32 {
    if value <= i32::MAX {
        value as i32
    } else {
        i32::MAX
    }
}

/// `value` as an `i32`, saturating instead of wrapping.
pub fn to_i32(value: u32) -> (r: i32)
    ensures
        r == spec_to_i32(value),
{
    if value <= i32::MAX as u32 {
        value as i32
    } else {
        i32::MAX
    }
}

/// `value` as a `u32`, with negative values becoming zero.
pub open spec fn spec_to_u32(value: i32) -> u32 {
    if value >= 0 {
        value as u32
    } else {
        0
    }
}

/// `value` as a `u32`, with negative values becoming zero.
pub fn to_u32(value: i32) -> (r: u32)
    ensures
        r == spec_to_u32(value),
{
    if value >= 0 {
        value as u32
    } else {
        0
    }
}

/// Rows any glyph of a font with bounding box `bounds` can reach when it is drawn centered on
/// `center_y`.
pub fn font_band(bounds: FontBox, center_y: i32) -> (r: Band)
    requires
        bounds.in_bounds(),
        -0x100_0000 <= center_y <= 0x100_0000,
    ensures
        r == (Band { top: (center_y + bounds.top) as i32, height: bounds.height as i32 }),
{
    Band { top: center_y + bounds.top, height: to_i32(bounds.height) }
}

/// Rows any glyph of `font` can reach when it is drawn centered on `center_y`.
pub open spec fn spec_font_band(font: ScreenFont, center_y: int) -> Band {
    Band {
        top: (center_y + fonts::spec_font_box(font).top) as i32,
        height: fonts::spec_font_box(font).height as i32,
    }
}

/// Rows the layer covers.
pub open spec fn spec_layer_band() -> Band {
    spec_font_band(ScreenFont::Layer, LAYER_CENTER_Y as int)
}

/// Rows the layer covers: those any glyph of its font can reach, centered on
/// [`LAYER_CENTER_Y`].
pub fn layer_band() -> (r: Band)
    ensures
        r == spec_layer_band(),
        -0x1000 < r.top < 0x1000,
        0 <= r.height <= 127,
{
    font_band(font_box(ScreenFont::Layer), LAYER_CENTER_Y)
}

/// Name of layer `layer`, for the layers that have one: `base` for layer 0.
pub fn layer_name(layer: u8) -> (r: Option<&'static str>)
    ensures
        layer == 0 ==> r == Some("base"),
        layer != 0 ==> r.is_none(),
{
    if layer == 0 {
        Some("base")
    } else {
        None
    }
}

/// The area a band covers across the full width of a screen `width` px wide, which is what
/// clearing the band fills.
pub fn clear_band(width: i32, band: Band) -> (r: crate::graphics::Rect)
    ensures
        r == (crate::graphics::Rect {
            x: 0,
            y: band.top,
            width: spec_to_u32(width),
            height: spec_to_u32(band.height),
        }),
{
    crate::graphics::Rect { x: 0, y: band.top, width: to_u32(width), height: to_u32(band.height) }
}

/// Where and what the layer is drawn as: centered on the middle of the screen at
/// [`LAYER_CENTER_Y`], by its name when it has one and as `Layer <number>` otherwise.
#[derive(Clone, Copy, PartialEq, Eq, Debug)]
pub struct LayerView {
    /// Horizontal center (px) of the text.
    pub x: i32,
    /// Vertical center (px) of the text.
    pub y: i32,
    /// The name of the layer, when it has one.
    pub name: Option<&'static str>,
    /// The number of the layer, shown when it has no name.
    pub layer: u8,
}

/// Lays out the layer across the middle of a screen `width` px wide.
pub fn draw_layer(width: i32, layer: u8) -> (r: LayerView)
    ensures
        r.x == (if width >= 0 { width / 2 } else { -((-width) / 2) }),
        r.y == LAYER_CENTER_Y,
        r.layer == layer,
        layer == 0 ==> r.name == Some("base"),
        layer != 0 ==> r.name.is_none(),
{
    LayerView { x: width / 2, y: LAYER_CENTER_Y, name: layer_name(layer), layer }
}

/// Background.
pub fn background() -> (c: u16)
    ensures
        c == crate::graphics::spec_rgb565(0, 0, 0),
{
    rgb565(0, 0, 0)
}

/// Color of the layer, of the USB label and of a held modifier.
pub fn foreground() -> (c: u16)
    ensures
        c == crate::graphics::spec_rgb565(31, 63, 31),
{
    rgb565(31, 63, 31)
}

/// Where the four parts of a screen `height` px tall lie, with the icons of the given sizes, or
/// `None` for a negative height, which no panel has.
///
/// The parts come from the top of the screen down, each covering a row at least, as long as the
/// top band reaches no lower than the overlay, which a sun icon no taller than 85 px makes sure
/// of. The overlay always shares rows with the layer it covers.
pub fn screen_layout(height: i32, icons: &Icons) -> (r: Option<Layout>)
    requires
        icons.small(),
    ensures
        r matches Some(layout) ==> {
            &&& layout.wf()
            &&& layout.height == height
            &&& layout.header == header::spec_band(*icons)
            &&& layout.overlay.top == brightness::spec_backdrop(icons.sun).y
            &&& layout.overlay.height == brightness::spec_backdrop(icons.sun).height
            &&& layout.layer == spec_layer_band()
            &&& layout.battery == battery::spec_band()
            &&& layout.layer == (Band { top: 89, height: 57 })
            &&& layout.battery == (Band { top: 192, height: 25 })
            &&& layout.overlay.shares_row(layout.layer)
            &&& layout.ordered() <==> layout.header.top <= layout.overlay.top
            &&& icons.sun.height <= 85 ==> layout.ordered()
        },
        r.is_none() <==> height < 0,
{
    let header = header::band(icons);
    let overlay = brightness::band(icons.sun);
    let layer = layer_band();
    let battery = battery::band();
    if height < 0 {
        return None;
    }
    Some(Layout { height, header, overlay, layer, battery })
}

/// Adding a band when it is dirty keeps the rows ordered, separated and bounded; the rows
/// covered afterwards are those covered before and, when it is dirty, the rows of `band`.
proof fn lemma_push_if_covers(bands: Seq<Band>, dirty: bool, band: Band)
    requires
        band::all_bounded(bands),
        band::separated(bands),
        band_bounded(band),
        band.height > 0,
        bands.len() > 0 ==> bands.last().top <= band.top,
        bands.len() < PART_COUNT,
    ensures
        band::separated(push_if(bands, dirty, band)),
        band::all_bounded(push_if(bands, dirty, band)),
        push_if(bands, dirty, band).len() <= bands.len() + (if dirty { 1int } else { 0 }),
        push_if(bands, dirty, band).len() > 0 ==> push_if(bands, dirty, band).last().top
            <= band.top,
        dirty ==> push_if(bands, dirty, band).len() > 0 && push_if(bands, dirty, band).last().end()
            >= band.end(),
        dirty && band::merges(bands, band) ==> push_if(bands, dirty, band).len() == bands.len(),
        !dirty ==> push_if(bands, dirty, band) == bands,
        forall|row: int|
            #[trigger] band::covered_by(push_if(bands, dirty, band), row) <==> (band::covered_by(
                bands,
                row,
            ) || (dirty && band.covers(row))),
{
    if dirty {
        band::lemma_push_bounded(bands, band);
        band::lemma_push_band_rows(bands, band);
    }
}

/// Adding a band when it is dirty loses no row covered before and, when it is dirty and there is
/// room, covers the rows of the band.
proof fn lemma_push_if_keeps(bands: Seq<Band>, dirty: bool, band: Band, row: int)
    requires
        band::all_bounded(bands),
        band_bounded(band),
        bands.len() < PART_COUNT,
    ensures
        band::all_bounded(push_if(bands, dirty, band)),
        push_if(bands, dirty, band).len() <= bands.len() + 1,
        band::covered_by(bands, row) ==> band::covered_by(push_if(bands, dirty, band), row),
        dirty && band.covers(row) ==> band::covered_by(push_if(bands, dirty, band), row),
{
    if dirty {
        band::lemma_push_keeps_covered(bands, band, row);
    }
}

/// What a redraw over a screen that shows `shown` redraws: the top row exactly when the transport
/// or the held modifiers changed, the battery band exactly when the battery of a half changed,
/// the layer when the layer changed and the overlay when the overlay changed, and each of the two
/// also when the other changed while the overlay, on screen before or after, shares rows with the
/// layer. Every row of each part it redraws is among the rows it sends, whatever the layout.
pub proof fn lemma_redraw_follows_changes(layout: Layout, status: Status, shown: Status, row: int)
    requires
        layout.wf(),
    ensures
        spec_header_dirty(status, shown) <==> (status.connection != shown.connection
            || status.modifiers != shown.modifiers),
        spec_battery_dirty(status, shown) <==> (status.batteries[0] != shown.batteries[0]
            || status.batteries[1] != shown.batteries[1]),
        spec_layer_dirty(layout, status, shown) <==> (status.layer != shown.layer || (
        status.brightness != shown.brightness && (status.brightness is Some
            || shown.brightness is Some) && layout.overlay.shares_row(layout.layer))),
        spec_overlay_dirty(layout, status, shown) <==> (status.brightness != shown.brightness || (
        status.layer != shown.layer && (status.brightness is Some || shown.brightness is Some)
            && layout.overlay.shares_row(layout.layer))),
        ({
            let header = spec_header_dirty(status, shown);
            let overlay = spec_overlay_dirty(layout, status, shown);
            let layer = spec_layer_dirty(layout, status, shown);
            let battery = spec_battery_dirty(status, shown);
            let rows = dirty_rows(layout, header, overlay, layer, battery);
            &&& header && layout.header.covers(row) ==> band::covered_by(rows, row)
            &&& overlay && layout.overlay.covers(row) ==> band::covered_by(rows, row)
            &&& layer && layout.layer.covers(row) ==> band::covered_by(rows, row)
            &&& battery && layout.battery.covers(row) ==> band::covered_by(rows, row)
        }),
{
    if status.batteries[0] != shown.batteries[0] || status.batteries[1] != shown.batteries[1] {
        assert(status.batteries@[0] != shown.batteries@[0] || status.batteries@[1]
            != shown.batteries@[1]);
    } else {
        assert(status.batteries@ =~= shown.batteries@);
    }
    let header = spec_header_dirty(status, shown);
    let overlay = spec_overlay_dirty(layout, status, shown);
    let layer = spec_layer_dirty(layout, status, shown);
    let battery = spec_battery_dirty(status, shown);
    let s0 = Seq::<Band>::empty();
    let s1 = push_if(s0, header, layout.header);
    let s2 = push_if(s1, overlay, layout.overlay);
    let s3 = push_if(s2, layer, layout.layer);
    lemma_push_if_keeps(s0, header, layout.header, row);
    lemma_push_if_keeps(s1, overlay, layout.overlay, row);
    lemma_push_if_keeps(s2, layer, layout.layer, row);
    lemma_push_if_keeps(s3, battery, layout.battery, row);
}

/// The rows a redraw sends are exactly the rows of the parts it redraws, as bands ordered from
/// the top of the screen down that neither overlap nor touch.
pub proof fn lemma_redraw_rows_are_the_dirty_parts(
    layout: Layout,
    header: bool,
    overlay: bool,
    layer: bool,
    battery: bool,
)
    requires
        layout.wf(),
        layout.ordered(),
    ensures
        band::separated(dirty_rows(layout, header, overlay, layer, battery)),
        forall|row: int|
            #[trigger] band::covered_by(dirty_rows(layout, header, overlay, layer, battery), row)
                <==> ((header && layout.header.covers(row)) || (overlay && layout.overlay.covers(
                row,
            )) || (layer && layout.layer.covers(row)) || (battery && layout.battery.covers(row))),
{
    let s0 = Seq::<Band>::empty();
    let s1 = push_if(s0, header, layout.header);
    let s2 = push_if(s1, overlay, layout.overlay);
    let s3 = push_if(s2, layer, layout.layer);
    lemma_push_if_covers(s0, header, layout.header);
    lemma_push_if_covers(s1, overlay, layout.overlay);
    lemma_push_if_covers(s2, layer, layout.layer);
    lemma_push_if_covers(s3, battery, layout.battery);
    assert forall|row: int| !band::covered_by(s0, row) by {}
}

/// While the overlay shares rows with the layer, a redraw never sends more than three bands.
pub proof fn lemma_redraw_at_most_three_bands(layout: Layout, status: Status, shown: Status)
    requires
        layout.wf(),
        layout.ordered(),
        layout.overlay.top < layout.layer.end(),
        layout.layer.top < layout.overlay.end(),
    ensures
        dirty_rows(
            layout,
            spec_header_dirty(status, shown),
            spec_overlay_dirty(layout, status, shown),
            spec_layer_dirty(layout, status, shown),
            spec_battery_dirty(status, shown),
        ).len() <= 3,
{
    let header = spec_header_dirty(status, shown);
    let overlay = spec_overlay_dirty(layout, status, shown);
    let layer = spec_layer_dirty(layout, status, shown);
    let battery = spec_battery_dirty(status, shown);
    let s0 = Seq::<Band>::empty();
    let s1 = push_if(s0, header, layout.header);
    let s2 = push_if(s1, overlay, layout.overlay);
    let s3 = push_if(s2, layer, layout.layer);
    lemma_push_if_covers(s0, header, layout.header);
    lemma_push_if_covers(s1, overlay, layout.overlay);
    lemma_push_if_covers(s2, layer, layout.layer);
    lemma_push_if_covers(s3, battery, layout.battery);
    if overlay {
        assert(layer);
        assert(band::merges(s2, layout.layer));
    }
}

/// A redraw of a screen that already shows the same state redraws no part and sends no row.
pub proof fn lemma_same_screen_redraws_nothing(layout: Layout, status: Status, shown: Status)
    requires
        status.same(shown),
    ensures
        !spec_header_dirty(status, shown),
        !spec_overlay_dirty(layout, status, shown),
        !spec_layer_dirty(layout, status, shown),
        !spec_battery_dirty(status, shown),
        dirty_rows(layout, false, false, false, false) == Seq::<Band>::empty(),
{
}

/// The first frame sends every row of the screen.
pub proof fn lemma_first_frame_covers_screen(layout: Layout, row: int)
    requires
        layout.wf(),
        0 <= row < layout.height,
    ensures
        band::covered_by(seq![Band { top: 0, height: layout.height }], row),
{
    assert(seq![Band { top: 0, height: layout.height }][0].covers(row));
}

} // verus!
