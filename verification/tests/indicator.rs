use cornix_prospector_rmk::connection::{
    BatteryStatus, BleState, BleStatus, ChargeState, ConnectionStatus, ConnectionType, UsbState,
};
use cornix_prospector_rmk::indicator::{
    HOLD_TICKS, IndicatorProcessor, LedRole, SELF_TEST_TICKS, left_roles, profile_color,
    right_roles, scaled,
};
use cornix_prospector_rmk::ws2812::Rgb;

const LEVEL: u8 = 31;

fn red() -> Rgb {
    Rgb::new(LEVEL, 0, 0)
}

fn green() -> Rgb {
    Rgb::new(0, LEVEL, 0)
}

fn blue() -> Rgb {
    Rgb::new(0, 0, LEVEL)
}

fn off() -> Rgb {
    Rgb::off()
}

fn past_self_test(indicator: &mut IndicatorProcessor) {
    for _ in 0..SELF_TEST_TICKS {
        indicator.poll(false);
    }
}

fn connection(usb: UsbState, state: BleState, profile: u8) -> ConnectionStatus {
    ConnectionStatus { usb, ble: BleStatus { profile, state }, preferred: ConnectionType::Usb }
}

#[test]
fn roles_of_the_halves() {
    assert_eq!(left_roles(), [LedRole::BatteryAndLink, LedRole::HostConnection]);
    assert_eq!(right_roles(), [LedRole::Battery, LedRole::SplitLink]);
}

#[test]
fn profile_colors() {
    assert_eq!(profile_color(0), Some(green()));
    assert_eq!(profile_color(1), Some(red()));
    assert_eq!(profile_color(2), Some(blue()));
    assert_eq!(profile_color(3), Some(Rgb::new(LEVEL, LEVEL, 0)));
    assert_eq!(profile_color(4), Some(Rgb::new(0, LEVEL, LEVEL)));
    assert_eq!(profile_color(5), None);
}

#[test]
fn scaled_exact_values() {
    assert_eq!(scaled(Rgb::new(31, 0, 200), 3, 10), Rgb::new(9, 0, 60));
    assert_eq!(scaled(Rgb::new(200, 1, 2), 2, 1), Rgb::new(255, 2, 4));
    assert_eq!(scaled(Rgb::new(10, 20, 30), 1, 0), Rgb::new(10, 20, 30));
}

#[test]
fn self_test_shows_red_and_green_for_two_seconds() {
    let mut indicator = IndicatorProcessor::new(left_roles());
    let first = indicator.poll(false);
    assert!(first.power_on);
    assert_eq!(first.write, Some([red(), green()]));
    assert!(!first.power_off);
    for _ in 1..SELF_TEST_TICKS - 1 {
        let actions = indicator.poll(false);
        assert!(!actions.power_on);
        assert_eq!(actions.write, None);
    }
    let after = indicator.poll(false);
    assert_ne!(after.write, Some([red(), green()]));
}

#[test]
fn lost_link_blinks_blue_on_the_left_inner_led() {
    let mut indicator = IndicatorProcessor::new(left_roles());
    past_self_test(&mut indicator);
    // phase 40: the trough of the heartbeat.
    assert_eq!(indicator.phase, 40);
    let actions = indicator.poll(false);
    assert_eq!(indicator.last, Some([Rgb::new(0, 0, 3), off()]));
    assert!(actions.power_on);
    indicator.poll(false);
    assert_eq!(indicator.last, Some([Rgb::new(0, 0, 6), off()]));
}

#[test]
fn link_up_holds_blue_for_a_second_then_goes_dark() {
    let mut indicator = IndicatorProcessor::new(right_roles());
    past_self_test(&mut indicator);
    indicator.on_central_connected_event(true);
    assert_eq!(indicator.link_hold, HOLD_TICKS);
    let mut dark_at = None;
    for tick in 1..=HOLD_TICKS {
        let actions = indicator.poll(false);
        if actions.power_off {
            dark_at = Some(tick);
        }
    }
    assert_eq!(dark_at, Some(HOLD_TICKS));
    assert!(!indicator.powered);
}

#[test]
fn host_connect_flashes_the_profile_color() {
    let mut indicator = IndicatorProcessor::new(left_roles());
    indicator.on_central_connected_event(true);
    past_self_test(&mut indicator);
    indicator.on_connection_status_change_event(connection(UsbState::Disabled, BleState::Connected, 3));
    assert_eq!(indicator.host_hold, HOLD_TICKS);
    indicator.poll(false);
    assert_eq!(indicator.last, Some([off(), Rgb::new(LEVEL, LEVEL, 0)]));
}

#[test]
fn search_blink_is_suppressed_while_usb_is_in_use() {
    let mut indicator = IndicatorProcessor::new(left_roles());
    indicator.on_central_connected_event(true);
    past_self_test(&mut indicator);
    indicator.on_connection_status_change_event(connection(UsbState::Configured, BleState::Advertising, 0));
    for _ in 0..25 {
        indicator.poll(false);
        assert_eq!(indicator.last.unwrap()[1], off());
    }
    indicator.on_connection_status_change_event(connection(UsbState::Suspended, BleState::Advertising, 0));
    let mut lit = false;
    for _ in 0..25 {
        indicator.poll(false);
        lit |= indicator.last.unwrap()[1] != off();
    }
    assert!(lit);
}

#[test]
fn low_battery_blinks_red() {
    let mut indicator = IndicatorProcessor::new(right_roles());
    indicator.on_central_connected_event(true);
    past_self_test(&mut indicator);
    indicator.on_battery_status_event(BatteryStatus::Available {
        charge_state: ChargeState::Discharging,
        level: Some(19),
    });
    let mut seen = Vec::new();
    for _ in 0..10 {
        indicator.poll(false);
        seen.push(indicator.last.unwrap()[0]);
    }
    // phase 41..50: lit while phase / 5 is even.
    let expected: Vec<Rgb> = (41..51u32).map(|p| if (p / 5) % 2 == 0 { red() } else { off() }).collect();
    assert_eq!(seen, expected);
}

#[test]
fn unknown_level_is_not_low() {
    let mut indicator = IndicatorProcessor::new(right_roles());
    indicator.on_central_connected_event(true);
    past_self_test(&mut indicator);
    indicator.on_battery_status_event(BatteryStatus::Unavailable);
    for _ in 0..30 {
        indicator.poll(false);
    }
    assert_eq!(indicator.last, Some([off(), off()]));
    assert!(!indicator.powered);
}

#[test]
fn charge_done_holds_green() {
    let mut indicator = IndicatorProcessor::new(right_roles());
    indicator.on_central_connected_event(true);
    indicator.on_battery_status_event(BatteryStatus::Available {
        charge_state: ChargeState::Charging,
        level: Some(80),
    });
    past_self_test(&mut indicator);
    indicator.poll(true);
    assert!(indicator.charging);
    indicator.poll(false);
    assert_eq!(indicator.charge_done_hold, HOLD_TICKS - 1);
    assert_eq!(indicator.last.unwrap()[0], green());
}

#[test]
fn same_colors_are_not_resent() {
    let mut indicator = IndicatorProcessor::new(right_roles());
    indicator.on_central_connected_event(true);
    past_self_test(&mut indicator);
    indicator.on_central_connected_event(true);
    indicator.poll(false);
    indicator.on_battery_status_event(BatteryStatus::Available {
        charge_state: ChargeState::Charging,
        level: Some(80),
    });
    let again = indicator.poll(false);
    assert_eq!(again.write, None);
}
