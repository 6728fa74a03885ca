use chip8_ports::display::{render, DisplayMessage, Frame, RenderEffect, HEIGHT, PIXEL_COUNT, WIDTH};

#[test]
fn from_pixels_rejects_wrong_length() {
    assert!(Frame::from_pixels(&vec![false; PIXEL_COUNT - 1]).is_none());
    assert!(Frame::from_pixels(&vec![false; PIXEL_COUNT + 1]).is_none());
    assert!(Frame::from_pixels(&Vec::new()).is_none());
}

#[test]
fn from_pixels_round_trips() {
    let pixels: Vec<bool> = (0..PIXEL_COUNT).map(|i| i % 3 == 0 || i % 7 == 1).collect();
    let frame = Frame::from_pixels(&pixels).unwrap();
    assert_eq!(frame.to_pixels(), pixels);
    for y in 0..HEIGHT {
        for x in 0..WIDTH {
            assert_eq!(frame.pixel(x, y), pixels[y * WIDTH + x]);
        }
    }
}

#[test]
fn rows_put_leftmost_pixel_in_top_bit() {
    let mut rows = vec![0u64; HEIGHT];
    rows[0] = 1u64 << 63;
    rows[31] = 1;
    rows[2] = 0xF0;
    let frame = Frame::from_rows(rows).unwrap();
    assert!(frame.pixel(0, 0));
    assert!(!frame.pixel(1, 0));
    assert!(frame.pixel(63, 31));
    assert!(!frame.pixel(62, 31));
    assert!(frame.pixel(56, 2));
    assert!(frame.pixel(59, 2));
    assert!(!frame.pixel(60, 2));
    let pixels = frame.to_pixels();
    assert_eq!(pixels.iter().filter(|p| **p).count(), 6);
    assert!(pixels[0]);
    assert!(pixels[2 * WIDTH + 56]);
    assert!(pixels[PIXEL_COUNT - 1]);
}

#[test]
fn from_rows_needs_one_word_per_row() {
    assert!(Frame::from_rows(vec![0u64; HEIGHT - 1]).is_none());
    assert!(Frame::from_rows(vec![0u64; HEIGHT + 1]).is_none());
    assert!(Frame::from_rows(vec![0u64; HEIGHT]).is_some());
}

#[test]
fn blank_frame_is_dark() {
    let frame = Frame::blank();
    assert_eq!(frame.to_pixels(), vec![false; PIXEL_COUNT]);
    assert_eq!(frame, Frame::from_rows(vec![0u64; HEIGHT]).unwrap());
}

#[test]
fn render_clear_and_update() {
    assert_eq!(render(DisplayMessage::Clear), RenderEffect::Clear);
    let mut pixels = vec![false; PIXEL_COUNT];
    pixels[100] = true;
    let frame = Frame::from_pixels(&pixels).unwrap();
    assert_eq!(render(DisplayMessage::Update(frame)), RenderEffect::Draw(pixels));
}
