use cornix_prospector_rmk::graphics::Rect;
use cornix_prospector_rmk::lcd::framebuffer::{FlushBand, FrameBuffer};

type Small = FrameBuffer<4, 6, 2>;

#[test]
fn window_and_flush_are_cut_at_the_bottom() {
    let mut fb = Small::new(vec![0; 16]);
    assert_eq!(fb.window(), Rect { x: 0, y: 0, width: 4, height: 2 });
    assert_eq!(fb.flush(5), Some(FlushBand { x: 0, y: 0, width: 4, rows: 2, bytes: 16 }));
    fb.set_window(5);
    assert_eq!(fb.window(), Rect { x: 0, y: 5, width: 4, height: 1 });
    assert_eq!(fb.flush(2), Some(FlushBand { x: 0, y: 5, width: 4, rows: 1, bytes: 8 }));
    fb.set_window(9);
    assert_eq!(fb.window(), Rect { x: 0, y: 6, width: 4, height: 0 });
    assert_eq!(fb.flush(2), None);
    assert_eq!(fb.flush(0), None);
}

#[test]
fn fill_solid_is_clipped_to_the_window() {
    let mut fb = Small::new(vec![0; 16]);
    fb.set_window(1);
    fb.fill_solid(Rect { x: 2, y: 0, width: 10, height: 2 }, 0xABCD);
    assert_eq!(
        fb.buffer(),
        &[0, 0, 0, 0, 0xAB, 0xCD, 0xAB, 0xCD, 0, 0, 0, 0, 0, 0, 0, 0][..]
    );
    fb.fill_solid(Rect { x: -5, y: 2, width: 6, height: 1 }, 0x1111);
    assert_eq!(
        fb.buffer(),
        &[0, 0, 0, 0, 0xAB, 0xCD, 0xAB, 0xCD, 0x11, 0x11, 0, 0, 0, 0, 0, 0][..]
    );
    fb.fill_solid(Rect { x: 0, y: 4, width: 4, height: 4 }, 0xFFFF);
    assert_eq!(fb.buffer()[8..], [0x11, 0x11, 0, 0, 0, 0, 0, 0]);
}

#[test]
fn draw_pixel_drops_pixels_outside_the_window() {
    let mut fb = Small::new(vec![0; 16]);
    fb.set_window(2);
    fb.draw_pixel(3, 3, 0x1234);
    fb.draw_pixel(0, 1, 0xFFFF);
    fb.draw_pixel(4, 2, 0xFFFF);
    fb.draw_pixel(-1, 2, 0xFFFF);
    let mut expected = [0u8; 16];
    expected[14] = 0x12;
    expected[15] = 0x34;
    assert_eq!(fb.buffer(), &expected[..]);
}

#[test]
fn clear_fills_every_byte() {
    let mut fb = Small::new(vec![7; 16]);
    fb.set_window(100);
    fb.clear(0x00FF);
    let expected: Vec<u8> = (0..16).map(|i| if i % 2 == 0 { 0x00 } else { 0xFF }).collect();
    assert_eq!(fb.buffer(), &expected[..]);
}
