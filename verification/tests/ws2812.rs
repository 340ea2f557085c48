use cornix_prospector_rmk::ws2812::{
    RESET_WORD, Rgb, T0H, T1H, buffer_fits, encode, frame_duration_micros, reset_buffer,
};

#[test]
fn rgb_new_and_off() {
    assert_eq!(Rgb::new(1, 2, 3), Rgb { r: 1, g: 2, b: 3 });
    assert_eq!(Rgb::off(), Rgb { r: 0, g: 0, b: 0 });
}

#[test]
fn buffer_length_is_checked() {
    assert!(buffer_fits(2, 49));
    assert!(!buffer_fits(2, 48));
    assert!(!buffer_fits(usize::MAX, 1));
}

#[test]
fn encode_is_grb_msb_first_and_keeps_the_reset_word() {
    let mut words = reset_buffer(49);
    encode(&[Rgb::new(0x01, 0x80, 0x00), Rgb::new(0xFF, 0, 0x05)], &mut words);
    let mut expected = vec![T0H; 49];
    expected[0] = T1H; // green 0x80, most significant bit
    expected[15] = T1H; // red 0x01, least significant bit
    for i in 32..40 {
        expected[i] = T1H; // red 0xFF of the second LED
    }
    expected[45] = T1H; // blue 0x05
    expected[47] = T1H;
    expected[48] = RESET_WORD;
    assert_eq!(words, expected);
}

#[test]
fn encode_into_a_short_buffer_drops_the_rest() {
    let mut words = vec![0u16; 4];
    encode(&[Rgb::new(0, 0xF0, 0)], &mut words);
    assert_eq!(words, vec![T1H, T1H, T1H, T1H]);
}

#[test]
fn frame_duration() {
    assert_eq!(frame_duration_micros(49), 373);
    assert_eq!(frame_duration_micros(0), 312);
}
