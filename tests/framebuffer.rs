use raytracer::framebuffer::{pixel_coords, pixel_index, Framebuffer};

#[test]
fn pixel_index_is_row_major() {
    assert_eq!(pixel_index(1024, 0, 0), 0);
    assert_eq!(pixel_index(1024, 1023, 0), 1023);
    assert_eq!(pixel_index(1024, 0, 1), 1024);
    assert_eq!(pixel_index(1024, 5, 767), 767 * 1024 + 5);
}

#[test]
fn pixel_coords_round_trip() {
    assert_eq!(pixel_coords(1024, 0), (0, 0));
    assert_eq!(pixel_coords(1024, 1025), (1, 1));
    assert_eq!(pixel_coords(3, 7), (1, 2));
    for idx in 0..50usize {
        let (i, j) = pixel_coords(7, idx);
        assert_eq!(pixel_index(7, i, j), idx);
    }
}

#[test]
fn pixels_are_visited_top_left_first_row_by_row() {
    let mut fb: Framebuffer<u32> = Framebuffer::new(3, 2);
    let mut seen = Vec::new();
    while let Some((i, j)) = fb.next_pixel() {
        seen.push((i, j));
        fb.push((10 * j + i) as u32);
    }
    assert_eq!(seen, vec![(0, 0), (1, 0), (2, 0), (0, 1), (1, 1), (2, 1)]);
    assert!(fb.is_complete());
    assert_eq!(fb.len(), 6);
    assert_eq!(fb.pixels(), &vec![0, 1, 2, 10, 11, 12]);
    assert_eq!(*fb.get(2, 1), 12);
    assert_eq!(*fb.get(0, 1), 10);
}

#[test]
fn new_framebuffer_is_empty() {
    let fb: Framebuffer<u8> = Framebuffer::new(4, 3);
    assert_eq!(fb.width(), 4);
    assert_eq!(fb.height(), 3);
    assert_eq!(fb.len(), 0);
    assert!(!fb.is_complete());
    assert_eq!(fb.next_pixel(), Some((0, 0)));
}

#[test]
fn empty_image_is_complete_at_once() {
    let fb: Framebuffer<u8> = Framebuffer::new(0, 5);
    assert!(fb.is_complete());
    assert_eq!(fb.next_pixel(), None);
}
