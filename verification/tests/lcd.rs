use cornix_prospector_rmk::backlight::Brightness;
use cornix_prospector_rmk::connection::{BatteryStatus, ChargeState, ConnectionStatus};
use cornix_prospector_rmk::lcd::{LcdProcessor, polarity_level};
use cornix_prospector_rmk::status_screen::band::Band;
use cornix_prospector_rmk::status_screen::{BrightnessOverlay, Layout};

fn layout() -> Layout {
    Layout {
        height: 240,
        header: Band { top: 10, height: 40 },
        overlay: Band { top: 47, height: 142 },
        layer: Band { top: 80, height: 60 },
        battery: Band { top: 190, height: 30 },
    }
}

fn start() -> Brightness {
    Brightness { percent: 100, revision: 0 }
}

#[test]
fn polarity() {
    assert!(polarity_level(true, false));
    assert!(!polarity_level(true, true));
    assert!(polarity_level(false, true));
}

#[test]
fn first_render_is_full_then_settles() {
    let mut lcd = LcdProcessor::new(layout(), start(), true);
    let plan = lcd.render().unwrap();
    assert!(plan.full);
    assert!(lcd.render().is_none());
    assert!(lcd.on_layer_change_event(0).is_none());
    let plan = lcd.on_layer_change_event(1).unwrap();
    assert!(!plan.full && plan.layer);
}

#[test]
fn no_panel_draws_nothing() {
    let mut lcd = LcdProcessor::new(layout(), start(), false);
    assert!(lcd.render().is_none());
    assert!(lcd.on_layer_change_event(4).is_none());
    assert_eq!(lcd.status().layer, 4);
}

#[test]
fn battery_of_a_disconnected_half_is_dropped() {
    let mut lcd = LcdProcessor::new(layout(), start(), true);
    lcd.render();
    let battery = BatteryStatus::Available { charge_state: ChargeState::Discharging, level: Some(60) };
    assert!(lcd.on_peripheral_battery_event(1, battery).unwrap().battery);
    assert_eq!(lcd.status().batteries[1], battery);
    assert!(lcd.on_peripheral_battery_event(2, battery).is_none());
    assert!(lcd.on_peripheral_connected_event(1, true).is_none());
    assert!(lcd.on_peripheral_connected_event(1, false).unwrap().battery);
    assert_eq!(lcd.status().batteries[1], BatteryStatus::Unavailable);
}

#[test]
fn other_events_update_the_status() {
    let mut lcd = LcdProcessor::new(layout(), start(), true);
    lcd.render();
    assert!(lcd.on_modifier_event(1).unwrap().header);
    let connection = ConnectionStatus::new();
    assert!(lcd.on_connection_status_change_event(connection).is_none());
}

#[test]
fn overlay_slides_in_holds_and_leaves() {
    let mut lcd = LcdProcessor::new(layout(), start(), true);
    lcd.render();
    assert!(lcd.poll(start(), 10, 100).is_none());
    let pressed = Brightness { percent: 93, revision: 1 };
    let mut slides = Vec::new();
    for now in 20..30u64 {
        lcd.poll(pressed, now, 100);
        slides.push(lcd.status().brightness.map(|o| o.slide).unwrap_or(0));
    }
    assert_eq!(slides, vec![1, 2, 3, 4, 5, 6, 6, 6, 6, 6]);
    assert_eq!(lcd.status().brightness, Some(BrightnessOverlay { percent: 93, slide: 6 }));
    let mut leaving = Vec::new();
    for now in 120..128u64 {
        lcd.poll(pressed, now, 100);
        leaving.push(lcd.status().brightness.map(|o| o.slide).unwrap_or(0));
    }
    assert_eq!(leaving, vec![5, 4, 3, 2, 1, 0, 0, 0]);
}
