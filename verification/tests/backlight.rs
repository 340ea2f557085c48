use cornix_prospector_rmk::backlight::{
    BRIGHTNESS_DOWN_ID, BRIGHTNESS_UP_ID, BacklightProcessor, BacklightUpdate, Brightness,
    backlight_duty, brightness, level_duty, pack_brightness,
};

#[test]
fn brightness_unpacks_percent_and_revision() {
    assert_eq!(brightness(0x0000_0764), Brightness { percent: 100, revision: 7 });
    assert_eq!(brightness(0xFFFF_0000), Brightness { percent: 0, revision: 0 });
}

#[test]
fn pack_then_unpack_gives_back_the_values() {
    let packed = pack_brightness(93, 200);
    assert_eq!(packed, (200 << 8) | 93);
    assert_eq!(brightness(packed), Brightness { percent: 93, revision: 200 });
}

#[test]
fn starts_at_the_brightest_step_and_dark() {
    let mut backlight = BacklightProcessor::new();
    assert_eq!(brightness(backlight.published()), Brightness { percent: 100, revision: 0 });
    assert_eq!(backlight.on_action_event(true, Some(BRIGHTNESS_DOWN_ID)), None);
    assert_eq!(backlight.poll(false), None);
    assert_eq!(backlight.poll(true), Some(1000));
    assert_eq!(backlight.poll(true), None);
}

#[test]
fn keys_step_and_saturate() {
    let mut backlight = BacklightProcessor::new();
    backlight.poll(true);
    let up = backlight.on_action_event(true, Some(BRIGHTNESS_UP_ID));
    assert_eq!(up, Some(BacklightUpdate { duty: 1000, published: pack_brightness(100, 1) }));
    let down = backlight.on_action_event(true, Some(BRIGHTNESS_DOWN_ID));
    assert_eq!(down, Some(BacklightUpdate { duty: 720, published: pack_brightness(93, 2) }));
    let mut last = None;
    for _ in 0..20 {
        last = backlight.on_action_event(true, Some(BRIGHTNESS_DOWN_ID));
    }
    assert_eq!(last, Some(BacklightUpdate { duty: 0, published: pack_brightness(0, 22) }));
}

#[test]
fn releases_and_other_actions_are_ignored() {
    let mut backlight = BacklightProcessor::new();
    backlight.poll(true);
    assert_eq!(backlight.on_action_event(false, Some(BRIGHTNESS_UP_ID)), None);
    assert_eq!(backlight.on_action_event(true, Some(3)), None);
    assert_eq!(backlight.on_action_event(true, None), None);
    assert_eq!(brightness(backlight.published()), Brightness { percent: 100, revision: 0 });
}

#[test]
fn duty_table_and_clamp() {
    assert_eq!(level_duty(0), 0);
    assert_eq!(level_duty(1), 10);
    assert_eq!(level_duty(8), 100);
    assert_eq!(level_duty(15), 1000);
    assert_eq!(backlight_duty(1500), 1000);
    assert_eq!(backlight_duty(37), 37);
}

#[test]
fn revision_wraps_around() {
    let mut backlight = BacklightProcessor::new();
    backlight.poll(true);
    let mut last = None;
    for _ in 0..256 {
        last = backlight.on_action_event(true, Some(BRIGHTNESS_UP_ID));
    }
    assert_eq!(last, Some(BacklightUpdate { duty: 1000, published: pack_brightness(100, 0) }));
}
