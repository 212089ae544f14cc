use wlcore::buffer::Buffer;
use wlcore::painter::{Painter, COLOR1, COLOR2};

#[test]
fn buffer_600_by_400_region_is_960000_bytes() {
    let buffer = Buffer::new(960000, 600, 400);
    assert_eq!(buffer.byte_len(), 960000);
    assert_eq!(buffer.width(), 600);
    assert_eq!(buffer.height(), 400);
}

#[test]
fn buffer_starts_zeroed_and_pixel_writes_land() {
    let mut buffer = Buffer::new(4 * 4 * 3, 4, 3);
    assert_eq!(buffer.pixel(2, 1), 0);
    buffer.put_pixel(2, 1, 0xFF00FF00);
    assert_eq!(buffer.pixel(2, 1), 0xFF00FF00);
    assert_eq!(buffer.pixel(1, 1), 0);
    assert_eq!(buffer.pixel(2, 2), 0);
}

#[test]
fn buffer_release_follows_attach() {
    let mut buffer = Buffer::new(4 * 2 * 2, 2, 2);
    buffer.attach();
    buffer.release();
}

#[test]
fn checkerboard_cells_alternate_in_bands_of_eight() {
    let mut buffer = Buffer::new(4 * 32 * 32, 32, 32);
    let painter = Painter::new();
    painter.draw(&mut buffer);
    assert_eq!(buffer.pixel(0, 0), COLOR1);
    assert_eq!(buffer.pixel(7, 0), COLOR1);
    assert_eq!(buffer.pixel(8, 0), COLOR2);
    assert_eq!(buffer.pixel(15, 0), COLOR2);
    assert_eq!(buffer.pixel(16, 0), COLOR1);
    assert_eq!(buffer.pixel(0, 8), COLOR2);
    assert_eq!(buffer.pixel(8, 8), COLOR1);
    assert_eq!(buffer.pixel(0, 7), COLOR1);
}

#[test]
fn checkerboard_phase_scrolls_with_offset() {
    // Advance the painter to an offset of 3 units: baseline at 0 ms, then
    // one frame 125 ms later gives 3 units (24 units per second).
    let mut painter = Painter::new();
    painter.update_time(0);
    painter.update_time(125);
    assert_eq!(painter.offset_units(), 3);
    assert_eq!(painter.offset(), 3);
    let mut buffer = Buffer::new(4 * 16 * 16, 16, 16);
    painter.draw(&mut buffer);
    // (x + 3) + (y + 3) / 8 * 8 at (4, 0): 7 -> dark band.
    assert_eq!(buffer.pixel(4, 0), COLOR1);
    // At (5, 0): 8 -> light band.
    assert_eq!(buffer.pixel(5, 0), COLOR2);
}

#[test]
fn first_timestamp_is_a_baseline_with_zero_elapsed() {
    let mut painter = Painter::new();
    painter.update_time(5000);
    assert_eq!(painter.offset_units(), 0);
}

#[test]
fn one_second_advances_the_offset_by_exactly_24_units() {
    let mut painter = Painter::new();
    painter.update_time(5000);
    painter.update_time(6000);
    assert_eq!(painter.offset_units(), 24);
}

#[test]
fn zero_sized_buffer_has_a_zero_length_region() {
    let buffer = Buffer::new(0, 600, 0);
    assert_eq!(buffer.byte_len(), 0);
    let buffer = Buffer::new(0, 0, 400);
    assert_eq!(buffer.byte_len(), 0);
}
