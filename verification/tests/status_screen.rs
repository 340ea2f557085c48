use cornix_prospector_rmk::connection::{
    BatteryStatus, BleState, BleStatus, ChargeState, ConnectionStatus, ConnectionType, UsbState,
};
use cornix_prospector_rmk::graphics::Rect;
use cornix_prospector_rmk::status_screen::band::{Band, DirtyRows};
use cornix_prospector_rmk::status_screen::battery::{battery_bars, dimmed, level_color};
use cornix_prospector_rmk::status_screen::brightness::{draw_brightness, slide_offset};
use cornix_prospector_rmk::status_screen::header::{
    TransportIcon, TransportLabel, draw_connection, draw_modifiers, modifier_held,
};
use cornix_prospector_rmk::status_screen::{
    BrightnessOverlay, IconSize, Icons, Layout, Status, background, clear_band, draw_layer,
    foreground, layer_band, plan_redraw, screen_layout, to_i32, to_u32,
};
use cornix_prospector_rmk::status_screen::battery;
use cornix_prospector_rmk::status_screen::brightness;

fn icons() -> Icons {
    let icon = IconSize { width: 24, height: 24 };
    Icons { usb: icon, bluetooth: icon, modifiers: [icon; 4], sun: icon }
}

fn layout() -> Layout {
    Layout {
        height: 240,
        header: Band { top: 10, height: 40 },
        overlay: Band { top: 47, height: 142 },
        layer: Band { top: 80, height: 60 },
        battery: Band { top: 190, height: 30 },
    }
}

#[test]
fn band_basics() {
    let a = Band { top: 10, height: 5 };
    let b = Band { top: 15, height: 5 };
    assert_eq!(a.bottom(), 15);
    assert!(!a.intersects(b));
    assert!(a.intersects(Band { top: 14, height: 1 }));
    assert_eq!(a.union(b), Band { top: 10, height: 10 });
    assert_eq!(Band { top: -3, height: -1 }.row_range(), (0, 0));
    assert_eq!(b.row_range(), (15, 5));
}

#[test]
fn band_of_no_rows_shares_none() {
    let empty = Band { top: 5, height: 0 };
    let rows = Band { top: 0, height: 10 };
    assert!(!empty.intersects(rows));
    assert!(!rows.intersects(empty));
    assert!(!Band { top: 5, height: -2 }.intersects(rows));
}

#[test]
fn dirty_rows_keep_a_band_of_no_rows_apart() {
    let mut rows = DirtyRows::new();
    rows.push(Band { top: 0, height: 10 });
    rows.push(Band { top: 12, height: 0 });
    rows.push(Band { top: 12, height: 3 });
    assert_eq!(rows.bands(), &[Band { top: 0, height: 10 }, Band { top: 12, height: 3 }][..]);
}

#[test]
fn dirty_rows_drop_a_band_below_a_full_set_whatever_its_height() {
    let mut rows = DirtyRows::new();
    for i in 0..4 {
        rows.push(Band { top: i * 10, height: 5 });
    }
    rows.push(Band { top: i32::MAX - 1, height: 10 });
    assert_eq!(rows.bands().len(), 4);
    assert_eq!(rows.bands()[3], Band { top: 30, height: 5 });
}

#[test]
fn dirty_rows_merge_touching_bands() {
    let mut rows = DirtyRows::new();
    rows.push(Band { top: 0, height: 10 });
    rows.push(Band { top: 10, height: 5 });
    rows.push(Band { top: 20, height: 5 });
    rows.push(Band { top: 22, height: 10 });
    assert_eq!(rows.bands(), &[Band { top: 0, height: 15 }, Band { top: 20, height: 12 }][..]);
}

#[test]
fn dirty_rows_drop_a_fifth_separate_band() {
    let mut rows = DirtyRows::new();
    for i in 0..5 {
        rows.push(Band { top: i * 10, height: 5 });
    }
    assert_eq!(rows.bands().len(), 4);
    assert_eq!(rows.bands()[3], Band { top: 30, height: 5 });
}

#[test]
fn first_frame_sends_the_whole_screen() {
    let plan = plan_redraw(&layout(), &Status::new(), None);
    assert!(plan.full && plan.header && plan.overlay && plan.layer && plan.battery);
    assert_eq!(plan.rows.bands(), &[Band { top: 0, height: 240 }][..]);
}

#[test]
fn unchanged_screen_redraws_nothing() {
    let status = Status::new();
    let plan = plan_redraw(&layout(), &status, Some(status));
    assert!(!plan.full && !plan.header && !plan.overlay && !plan.layer && !plan.battery);
    assert!(plan.rows.bands().is_empty());
}

#[test]
fn layer_change_redraws_the_layer_alone_without_overlay() {
    let shown = Status::new();
    let mut status = shown;
    status.layer = 2;
    let plan = plan_redraw(&layout(), &status, Some(shown));
    assert!(plan.layer && !plan.overlay && !plan.header && !plan.battery);
    assert_eq!(plan.rows.bands(), &[Band { top: 80, height: 60 }][..]);
}

#[test]
fn layer_change_under_the_overlay_redraws_both() {
    let mut shown = Status::new();
    shown.brightness = Some(BrightnessOverlay { percent: 50, slide: 6 });
    let mut status = shown;
    status.layer = 1;
    status.batteries[1] = BatteryStatus::Available { charge_state: ChargeState::Unknown, level: Some(40) };
    let plan = plan_redraw(&layout(), &status, Some(shown));
    assert!(plan.layer && plan.overlay && plan.battery && !plan.header);
    assert_eq!(plan.rows.bands(), &[Band { top: 47, height: 142 }, Band { top: 190, height: 30 }][..]);
}

#[test]
fn header_change_redraws_the_header() {
    let shown = Status::new();
    let mut status = shown;
    status.modifiers = 0b0001_0000;
    let plan = plan_redraw(&layout(), &status, Some(shown));
    assert!(plan.header && !plan.layer && !plan.overlay && !plan.battery);
    assert_eq!(plan.rows.bands(), &[Band { top: 10, height: 40 }][..]);
}

#[test]
fn screen_layout_from_fonts_and_icons() {
    let layout = screen_layout(240, &icons()).unwrap();
    assert_eq!(layout.height, 240);
    assert_eq!(layout.overlay, Band { top: 47, height: 142 });
    assert!(layout.layer.height > 0 && layout.layer.top < 118);
    assert!(layout.battery.top < 211 && layout.battery.bottom() >= 217);
    assert!(screen_layout(-1, &icons()).is_none());
}

#[test]
fn font_bands_are_sane() {
    let layer = layer_band();
    assert!(layer.height > 30 && layer.height < 128, "{:?}", layer);
    assert!(layer.top < 118 && layer.bottom() > 118);
    let battery = battery::band();
    assert!(battery.top < 203 - 5 && battery.bottom() == 217, "{:?}", battery);
    assert!(layer.height > battery.height);
}

#[test]
fn palette_storage() {
    assert_eq!(foreground(), 0xFFFF);
    assert_eq!(background(), 0x0000);
    assert_eq!(level_color(Some(50)), 0x07E0);
    assert_eq!(level_color(None), 0x4208);
}

#[test]
fn conversions_saturate() {
    assert_eq!(to_i32(u32::MAX), i32::MAX);
    assert_eq!(to_i32(5), 5);
    assert_eq!(to_u32(-5), 0);
    assert_eq!(to_u32(7), 7);
}

#[test]
fn battery_colors_and_bars() {
    assert_eq!(level_color(Some(35)), 0x07E0);
    assert_eq!(level_color(Some(34)), 0xFD00);
    assert_eq!(level_color(Some(19)), 0xF800);
    assert_eq!(level_color(None), 0x4208);
    assert_eq!(dimmed(0x07E0, 1, 4), 0x01E0);
    assert_eq!(dimmed(0x4208, 1, 2), 0x2104);
    assert_eq!(dimmed(0xFFFF, 2, 1), 0xF7DE);
    assert_eq!(dimmed(0xFFFF, 10, 1), 0x0000);
    let mut status = Status::new();
    status.batteries[0] = BatteryStatus::Available { charge_state: ChargeState::Discharging, level: Some(50) };
    let bars = battery_bars(280, &status);
    assert_eq!(bars[0].track, Rect { x: 20, y: 211, width: 116, height: 6 });
    assert_eq!(bars[1].track, Rect { x: 144, y: 211, width: 116, height: 6 });
    let fill = bars[0].fill.unwrap();
    assert_eq!(fill.visible, Rect { x: 20, y: 211, width: 58, height: 6 });
    assert_eq!(bars[0].track_color, 0x01E0);
    assert_eq!(bars[1].fill, None);
    assert_eq!(bars[1].track_color, 0x4208);
    assert_eq!((bars[0].text_x, bars[0].text_y), (78, 203));
    status.batteries[0] = BatteryStatus::Available { charge_state: ChargeState::Discharging, level: Some(1) };
    let tiny = battery_bars(280, &status)[0].fill.unwrap();
    assert_eq!(tiny.visible.width, 1);
    assert_eq!(tiny.drawn.width, 6);
}

#[test]
fn brightness_overlay_slides_in_from_the_right() {
    assert_eq!(slide_offset(280, 222, 0), 58);
    assert_eq!(slide_offset(280, 222, 3), 29);
    assert_eq!(slide_offset(280, 222, 6), 0);
    let sun = IconSize { width: 24, height: 24 };
    let full = draw_brightness(280, BrightnessOverlay { percent: 100, slide: 6 }, sun);
    assert_eq!(full.backdrop, Rect { x: 222, y: 47, width: 40, height: 142 });
    assert_eq!((full.icon_x, full.icon_y), (230, 55));
    assert_eq!(full.track, Rect { x: 239, y: 85, width: 6, height: 96 });
    assert_eq!(full.visible, full.track);
    let empty = draw_brightness(280, BrightnessOverlay { percent: 0, slide: 6 }, sun);
    assert_eq!(empty.visible.height, 0);
    assert_eq!(empty.drawn, Rect { x: 239, y: 175, width: 6, height: 6 });
    let hidden = draw_brightness(280, BrightnessOverlay { percent: 0, slide: 0 }, sun);
    assert_eq!(hidden.backdrop.x, 280);
}

#[test]
fn connection_view() {
    let icons = icons();
    let none = draw_connection(ConnectionStatus::new(), &icons);
    assert_eq!(none.icon, None);
    assert_eq!(none.label, TransportLabel::Disconnected);
    assert_eq!(none.label_x, 12);
    let usb = ConnectionStatus {
        usb: UsbState::Configured,
        ble: BleStatus { profile: 2, state: BleState::Connected },
        preferred: ConnectionType::Usb,
    };
    let view = draw_connection(usb, &icons);
    assert_eq!(view.icon, Some((TransportIcon::Usb, 12, 17, 0xFC00)));
    assert_eq!(view.label, TransportLabel::Usb);
    assert_eq!(view.label_x, 36);
    let ble = ConnectionStatus { preferred: ConnectionType::Ble, ..usb };
    let view = draw_connection(ble, &icons);
    assert_eq!(view.label, TransportLabel::Bluetooth(2));
    assert_eq!(view.label_color, 0x001F);
    assert_eq!(ble.decide_active(), Some(ConnectionType::Ble));
}

#[test]
fn modifiers_merge_both_sides() {
    // left shift and right gui
    let bits = 0b1000_0010;
    assert!(!modifier_held(bits, 0));
    assert!(!modifier_held(bits, 1));
    assert!(modifier_held(bits, 2));
    assert!(modifier_held(bits, 3));
    let slots = draw_modifiers(280, bits, &icons());
    assert_eq!(slots.len(), 4);
    assert_eq!(slots[3].x, 280 - 12 - 13 - 12);
    assert_eq!(slots[0].x, 280 - 12 - 90 - 13 - 12);
    assert_eq!(slots[3].y, 32 - 12 - 2);
    assert_eq!(slots[2].color, 0xFFFF);
    assert_eq!(slots[0].color, 0x4208);
}

#[test]
fn layer_view_and_band_area() {
    assert_eq!(draw_layer(280, 0).name, Some("base"));
    assert_eq!(draw_layer(280, 3).name, None);
    assert_eq!(draw_layer(280, 3).x, 140);
    assert_eq!(clear_band(280, Band { top: 5, height: 7 }), Rect { x: 0, y: 5, width: 280, height: 7 });
}

#[test]
fn battery_bar_up_to_the_widest_the_arithmetic_holds() {
    let width: i32 = (i32::MAX - 50) / 100;
    let bar = battery::battery_bar(0, width, Some(100));
    let fill = bar.fill.unwrap();
    assert_eq!(fill.visible.width, width as u32);
    assert_eq!(bar.text_x, width / 2);
    let half = battery::battery_bar(0, width, Some(50));
    assert_eq!(half.fill.unwrap().visible.width, ((width as i64 * 50 + 50) / 100) as u32);
}

#[test]
fn screen_layout_rows_from_the_font_boxes() {
    let layout = screen_layout(240, &icons()).unwrap();
    assert_eq!(layout.layer, Band { top: 89, height: 57 });
    assert_eq!(layout.battery, Band { top: 192, height: 25 });
    assert!(layout.header.top <= 17 && layout.header.bottom() >= 46);
    assert!(layout.header.top <= layout.overlay.top);
    assert!(layout.overlay.intersects(layout.layer));
}

#[test]
fn screen_layout_takes_any_height_a_panel_can_report() {
    let layout = screen_layout(i32::MAX, &icons()).unwrap();
    assert_eq!(layout.height, i32::MAX);
    let plan = plan_redraw(&layout, &Status::new(), None);
    assert_eq!(plan.rows.bands(), &[Band { top: 0, height: i32::MAX }][..]);
}

#[test]
fn bars_fit_up_to_the_overflow_of_the_fill() {
    let status = Status::new();
    assert!(battery::bars_fit(280, &status));
    assert!(battery::bars_fit(0, &status));
    assert!(battery::bars_fit(i32::MAX, &status));
    assert!(!battery::bars_fit(i32::MIN, &status));
}

#[test]
fn overlay_fits_until_the_slide_overflows() {
    let sun = IconSize { width: 24, height: 24 };
    assert!(brightness::overlay_fits(280, 0, sun));
    assert!(brightness::overlay_fits(i32::MAX, 6, sun));
    assert!(!brightness::overlay_fits(i32::MAX, 0, sun));
    assert!(!brightness::overlay_fits(i32::MIN, 6, sun));
    let far = 0x1555_5555 + 222;
    assert!(brightness::overlay_fits(far, 0, sun));
    assert!(!brightness::overlay_fits(far + 1, 0, sun));
}
