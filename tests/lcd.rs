use xenon::lcd::{LcdBuffer, BYTES_PER_LINE, LCD_Y};

#[test]
fn new_buffer_is_white_and_clean() {
    let buffer = LcdBuffer::new();
    assert!(!buffer.needs_refresh());
    assert!(!buffer.needs_clear());
    assert_eq!(buffer.get_line(0), &[0xff; BYTES_PER_LINE][..]);
}

#[test]
fn set_pixel_marks_rows() {
    let mut buffer = LcdBuffer::new();
    buffer.set_pixel(9, 3, false);
    assert!(buffer.needs_refresh());
    let line = buffer.get_line(3);
    assert_eq!(line[1], 0xff & !2);
    buffer.set_pixel(9, 3, true);
    assert_eq!(buffer.get_line(3)[1], 0xff);
    buffer.set_pixel(-1, 3, false);
    buffer.set_pixel(144, 3, false);
    buffer.set_pixel(0, 168, false);
    buffer.set_pixel(0, 300, false);
    assert_eq!(buffer.get_line(3), &[0xff; BYTES_PER_LINE][..]);
    buffer.refreshed();
    assert!(!buffer.needs_refresh());
}

#[test]
fn fill_clear_and_copy() {
    let mut buffer = LcdBuffer::new();
    buffer.fill(0);
    assert!(buffer.needs_refresh());
    assert_eq!(buffer.get_line((LCD_Y - 1) as usize), &[0; BYTES_PER_LINE][..]);
    let mut other = LcdBuffer::new();
    other.copy_from_buffer(&buffer);
    assert_eq!(other, buffer);
    buffer.clear();
    assert!(buffer.needs_clear());
    assert!(!buffer.needs_refresh());
    assert_eq!(buffer.get_line(5), &[0xff; BYTES_PER_LINE][..]);
    buffer.refreshed();
    assert!(!buffer.needs_clear());
}
