use epd_custom::graphics::{Display3in27, DisplayRotation, TwoBitColor, BUFFER_LEN};

/// Reads the two bits of panel pixel (nx, ny) of a 400-pixel-wide buffer.
fn panel_pixel(buf: &[u8], nx: usize, ny: usize) -> u8 {
    (buf[nx / 4 + 100 * ny] >> (6 - 2 * (nx % 4))) & 3
}

#[test]
fn new_display_is_white() {
    let d = Display3in27::new();
    assert_eq!(d.buffer().len(), BUFFER_LEN);
    assert_eq!(BUFFER_LEN, 400 / 4 * 300);
    assert!(d.buffer().iter().all(|b| *b == 0xff));
    assert_eq!(d.rotation(), DisplayRotation::Rotate0);
}

#[test]
fn color_encodings() {
    assert_eq!(TwoBitColor::White.bits(), 0b11);
    assert_eq!(TwoBitColor::Gray1.bits(), 0b10);
    assert_eq!(TwoBitColor::Gray2.bits(), 0b01);
    assert_eq!(TwoBitColor::Black.bits(), 0b00);
    assert_eq!(TwoBitColor::White.get_byte_value(), 0xff);
    assert_eq!(TwoBitColor::Gray1.get_byte_value(), 0xaa);
    assert_eq!(TwoBitColor::Gray2.get_byte_value(), 0x55);
    assert_eq!(TwoBitColor::Black.get_byte_value(), 0x00);
}

#[test]
fn four_pixels_per_byte_leftmost_high() {
    let mut d = Display3in27::new();
    d.draw_pixel(0, 0, TwoBitColor::Black);
    assert_eq!(d.buffer()[0], 0b0011_1111);
    d.draw_pixel(1, 0, TwoBitColor::Gray2);
    assert_eq!(d.buffer()[0], 0b0001_1111);
    d.draw_pixel(3, 0, TwoBitColor::Gray1);
    assert_eq!(d.buffer()[0], 0b0001_1110);
    // (5, 2) is in byte 1 of row 2
    d.draw_pixel(5, 2, TwoBitColor::Black);
    assert_eq!(d.buffer()[201], 0b1100_1111);
    assert_eq!(panel_pixel(d.buffer(), 5, 2), 0);
    // redrawing a pixel replaces its bits only
    d.draw_pixel(1, 0, TwoBitColor::White);
    assert_eq!(d.buffer()[0], 0b0011_1110);
}

#[test]
fn points_off_the_panel_are_ignored() {
    let mut d = Display3in27::new();
    d.draw_pixel(-1, 0, TwoBitColor::Black);
    d.draw_pixel(0, -5, TwoBitColor::Black);
    d.draw_pixel(400, 0, TwoBitColor::Black);
    d.draw_pixel(0, 300, TwoBitColor::Black);
    assert!(d.buffer().iter().all(|b| *b == 0xff));
    d.draw_pixel(399, 299, TwoBitColor::Black);
    assert_eq!(d.buffer()[BUFFER_LEN - 1], 0b1111_1100);
}

#[test]
fn rotations_turn_coordinates() {
    let mut d = Display3in27::new();
    d.set_rotation(DisplayRotation::Rotate90);
    d.draw_pixel(0, 0, TwoBitColor::Black); // panel (399, 0)
    assert_eq!(panel_pixel(d.buffer(), 399, 0), 0);
    d.draw_pixel(299, 0, TwoBitColor::Gray1); // panel (399, 299)
    assert_eq!(panel_pixel(d.buffer(), 399, 299), 0b10);
    d.draw_pixel(300, 0, TwoBitColor::Black); // off: the turned panel is 300 wide
    d.set_rotation(DisplayRotation::Rotate180);
    d.draw_pixel(0, 0, TwoBitColor::Gray2); // panel (399, 299)
    assert_eq!(panel_pixel(d.buffer(), 399, 299), 0b01);
    d.set_rotation(DisplayRotation::Rotate270);
    d.draw_pixel(0, 0, TwoBitColor::Black); // panel (0, 299)
    assert_eq!(panel_pixel(d.buffer(), 0, 299), 0);
    let blacks = d.buffer().iter().filter(|b| **b != 0xff).count();
    assert_eq!(blacks, 3);
}

#[test]
fn draw_helper_with_other_size() {
    let mut d = Display3in27::new();
    // a 10 by 3 panel: rows of 3 bytes
    d.draw_helper(10, 3, 9, 2, TwoBitColor::Black);
    assert_eq!(d.buffer()[2 + 3 * 2], 0b1100_1111);
    d.draw_helper(10, 3, 10, 0, TwoBitColor::Black);
    assert_eq!(d.buffer().iter().filter(|b| **b != 0xff).count(), 1);
}

#[test]
fn clear_buffer_fills() {
    let mut d = Display3in27::new();
    d.draw_pixel(7, 7, TwoBitColor::Black);
    d.clear_buffer(TwoBitColor::Gray1);
    assert!(d.buffer().iter().all(|b| *b == 0xaa));
    assert_eq!(d.buffer().len(), BUFFER_LEN);
}
