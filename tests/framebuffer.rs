use sphere_tracer::framebuffer::{pixel_index, FrameError, Framebuffer, Pixel};

fn px(blue: u8, green: u8, red: u8) -> Pixel {
    Pixel { blue, green, red }
}

#[test]
fn new_buffer_has_three_bytes_per_pixel() {
    for (w, h) in [(1usize, 1usize), (4, 4), (7, 3), (2048, 2)] {
        let fb = Framebuffer::new(w, h).unwrap();
        assert_eq!(fb.as_bytes().len(), w * h * 3);
        assert!(fb.as_bytes().iter().all(|b| *b == 0));
        assert_eq!(fb.width(), w);
        assert_eq!(fb.height(), h);
    }
}

#[test]
fn oversized_buffer_is_refused() {
    assert!(matches!(Framebuffer::new(usize::MAX, 2), Err(FrameError::TooLarge)));
    assert!(matches!(Framebuffer::new(usize::MAX / 2, 1), Err(FrameError::TooLarge)));
}

#[test]
fn pixel_index_is_row_major_times_three() {
    assert_eq!(pixel_index(4, 3, 0, 0), 0);
    assert_eq!(pixel_index(4, 3, 0, 1), 3);
    assert_eq!(pixel_index(4, 3, 1, 0), 12);
    assert_eq!(pixel_index(4, 3, 2, 3), 33);
}

#[test]
fn set_pixel_stores_blue_green_red() {
    let mut fb = Framebuffer::new(3, 2).unwrap();
    fb.set_pixel(1, 2, px(10, 20, 30));
    let bytes = fb.as_bytes();
    assert_eq!(&bytes[15..18], &[10, 20, 30]);
    assert_eq!(bytes.iter().filter(|b| **b != 0).count(), 3);
    assert_eq!(fb.pixel(1, 2), px(10, 20, 30));
    assert_eq!(fb.pixel(0, 0), px(0, 0, 0));
}

#[test]
fn write_row_touches_only_its_row() {
    let mut fb = Framebuffer::new(2, 3).unwrap();
    fb.write_row(1, &[px(1, 2, 3), px(4, 5, 6)]);
    assert_eq!(fb.as_bytes(), &[0, 0, 0, 0, 0, 0, 1, 2, 3, 4, 5, 6, 0, 0, 0, 0, 0, 0]);
}

#[test]
fn rows_assemble_into_full_buffer() {
    let rows = vec![
        vec![px(1, 2, 3), px(4, 5, 6), px(7, 8, 9)],
        vec![px(10, 11, 12), px(13, 14, 15), px(16, 17, 18)],
    ];
    let fb = Framebuffer::from_rows(3, 2, &rows).unwrap();
    let expected: Vec<u8> = (1..=18).collect();
    assert_eq!(fb.as_bytes(), &expected[..]);
}

#[test]
fn completed_buffer_length_matches_size() {
    for (w, h) in [(1usize, 1usize), (4, 4), (5, 2), (1, 9)] {
        let rows = vec![vec![px(0, 0, 255); w]; h];
        let fb = Framebuffer::from_rows(w, h, &rows).unwrap();
        assert_eq!(fb.as_bytes().len(), w * h * 3);
    }
}

#[test]
fn wrong_row_shapes_are_refused() {
    let rows = vec![vec![px(0, 0, 0); 2]; 3];
    assert!(matches!(Framebuffer::from_rows(2, 2, &rows), Err(FrameError::RowCount)));
    let mut ragged = vec![vec![px(0, 0, 0); 2]; 2];
    ragged[1].pop();
    assert!(matches!(Framebuffer::from_rows(2, 2, &ragged), Err(FrameError::RowWidth)));
    assert!(matches!(Framebuffer::from_rows(usize::MAX, 2, &rows), Err(FrameError::TooLarge)));
}
