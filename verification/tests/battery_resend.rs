use cornix_prospector_rmk::battery_resend::{BatteryResendProcessor, PERIODIC_RESEND_TICKS};

#[test]
fn nothing_is_resent_before_a_status_arrives() {
    let mut resend: BatteryResendProcessor<u8> = BatteryResendProcessor::new();
    resend.on_central_connected_event(true);
    for _ in 0..100 {
        assert_eq!(resend.poll(), None);
    }
}

#[test]
fn periodic_resend_every_thirty_polls() {
    let mut resend = BatteryResendProcessor::new();
    resend.on_battery_status_event(77u8);
    let mut fired = Vec::new();
    for tick in 1..=90u32 {
        if resend.poll() == Some(77) {
            fired.push(tick);
        }
    }
    assert_eq!(fired, vec![PERIODIC_RESEND_TICKS, 2 * PERIODIC_RESEND_TICKS, 3 * PERIODIC_RESEND_TICKS]);
}

#[test]
fn link_up_resends_on_the_second_poll() {
    let mut resend = BatteryResendProcessor::new();
    resend.on_battery_status_event(5u8);
    resend.on_central_connected_event(true);
    assert_eq!(resend.poll(), None);
    assert_eq!(resend.poll(), Some(5));
    assert_eq!(resend.poll(), None);
}

#[test]
fn staying_connected_schedules_nothing_more() {
    let mut resend = BatteryResendProcessor::new();
    resend.on_battery_status_event(5u8);
    resend.on_central_connected_event(true);
    resend.poll();
    resend.poll();
    resend.on_central_connected_event(true);
    assert_eq!(resend.link_up_delay, 0);
    resend.on_battery_status_event(9u8);
    let mut last = None;
    for _ in 0..28 {
        last = resend.poll();
    }
    assert_eq!(last, Some(9));
}
