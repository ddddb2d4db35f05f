use image::{DynamicImage, Rgba, RgbaImage};
use oneko::fill::{fill_window, pack_pixel, size_to_request, TRANSPARENCY};
use oneko::sprite_sheet::{FrameRef, SpriteSheet};

/// The pixel that the test images hold in column `x` of row `y`.
fn colour(x: u32, y: u32) -> (u8, u8, u8, u8) {
    ((x + 1) as u8, (y + 17) as u8, (x * 16 + y) as u8, (200 + x + y) as u8)
}

/// The word that the window shows for `colour(x, y)`.
fn word(x: u32, y: u32) -> u32 {
    let (r, g, b, a) = colour(x, y);
    u32::from_be_bytes([a, r, g, b])
}

/// A sheet of cells of `cell` whose every pixel tells where it is.
fn sheet(width: u32, height: u32, cell: (u32, u32)) -> SpriteSheet {
    let image = RgbaImage::from_fn(width, height, |x, y| {
        let (r, g, b, a) = colour(x, y);
        Rgba([r, g, b, a])
    });
    SpriteSheet::new(DynamicImage::ImageRgba8(image), cell)
}

#[test]
fn a_pixel_is_packed_alpha_first() {
    assert_eq!(pack_pixel((0x11, 0x22, 0x33, 0x44)), 0x4411_2233);
    assert_eq!(pack_pixel((0, 0, 0, 0)), 0);
    assert_eq!(pack_pixel((255, 255, 255, 255)), 0xffff_ffff);
    assert_eq!(pack_pixel((1, 0, 0, 0)), 0x0001_0000);
    assert_eq!(pack_pixel((0, 1, 0, 0)), 0x0000_0100);
    assert_eq!(pack_pixel((0, 0, 1, 0)), 0x0000_0001);
    assert_eq!(pack_pixel((0, 0, 0, 1)), 0x0100_0000);
}

#[test]
fn transparency_has_no_alpha() {
    assert_eq!(TRANSPARENCY, 0);
    assert_eq!(TRANSPARENCY >> 24, 0);
}

#[test]
fn a_view_of_the_windows_size_fills_it() {
    let sheet = sheet(4, 4, (2, 2));
    let mut buffer = vec![0xdead_beef; 4];
    fill_window(&mut buffer, (2, 2), sheet.get_frame_view(FrameRef(1, 0)));
    assert_eq!(buffer, vec![word(2, 0), word(3, 0), word(2, 1), word(3, 1)]);
}

#[test]
fn a_small_view_leaves_the_rest_transparent() {
    let sheet = sheet(4, 4, (2, 2));
    let mut buffer = vec![0xdead_beef; 12];
    fill_window(&mut buffer, (4, 3), sheet.get_frame_view(FrameRef(0, 1)));
    assert_eq!(
        buffer,
        vec![
            word(0, 2),
            word(1, 2),
            0,
            0,
            word(0, 3),
            word(1, 3),
            0,
            0,
            0,
            0,
            0,
            0,
        ]
    );
    for pixel in [2, 3, 6, 7, 8, 9, 10, 11] {
        assert_eq!(buffer[pixel] >> 24, 0);
    }
}

#[test]
fn a_large_view_is_cut_to_the_window() {
    let sheet = sheet(6, 6, (3, 3));
    let view = sheet.get_frame_view(FrameRef(1, 1));
    let mut buffer = vec![0xdead_beef; 2];
    fill_window(&mut buffer, (2, 1), view);
    assert_eq!(buffer, vec![word(3, 3), word(4, 3)]);
    let mut buffer = vec![0xdead_beef; 2];
    fill_window(&mut buffer, (1, 2), sheet.get_frame_view(FrameRef(1, 1)));
    assert_eq!(buffer, vec![word(3, 3), word(3, 4)]);
}

#[test]
fn a_view_that_is_wider_and_lower_than_the_window() {
    // Three columns do not fit, and two rows are left over.
    let sheet = sheet(5, 2, (5, 2));
    let mut buffer = vec![0xdead_beef; 8];
    fill_window(&mut buffer, (2, 4), sheet.get_frame_view(FrameRef(0, 0)));
    assert_eq!(buffer, vec![word(0, 0), word(1, 0), word(0, 1), word(1, 1), 0, 0, 0, 0]);
}

#[test]
fn a_window_without_pixels_is_left_alone() {
    let sheet = sheet(4, 4, (2, 2));
    let mut buffer: Vec<u32> = Vec::new();
    fill_window(&mut buffer, (0, 7), sheet.get_frame_view(FrameRef(0, 0)));
    assert!(buffer.is_empty());
    fill_window(&mut buffer, (7, 0), sheet.get_frame_view(FrameRef(0, 0)));
    assert!(buffer.is_empty());
    fill_window(&mut buffer, (0, 0), sheet.get_frame_view(FrameRef(0, 0)));
    assert!(buffer.is_empty());
}

#[test]
fn a_view_without_pixels_clears_the_window() {
    let sheet = sheet(4, 4, (0, 0));
    let mut buffer = vec![0xdead_beef; 6];
    fill_window(&mut buffer, (3, 2), sheet.get_frame_view(FrameRef(5, 5)));
    assert_eq!(buffer, vec![0; 6]);
}

#[test]
fn drawing_twice_shows_the_second_view_only() {
    let sheet = sheet(4, 2, (2, 2));
    let mut buffer = vec![0; 9];
    fill_window(&mut buffer, (3, 3), sheet.get_frame_view(FrameRef(0, 0)));
    fill_window(&mut buffer, (3, 3), sheet.get_frame_view(FrameRef(1, 0)));
    assert_eq!(buffer, vec![word(2, 0), word(3, 0), 0, word(2, 1), word(3, 1), 0, 0, 0, 0]);
}

#[test]
fn a_window_asks_for_the_size_of_the_view() {
    let sheet = sheet(8, 6, (4, 3));
    let view = sheet.get_frame_view(FrameRef(1, 1));
    assert_eq!(size_to_request((32, 32), &view), Some((4, 3)));
    assert_eq!(size_to_request((4, 4), &view), Some((4, 3)));
    assert_eq!(size_to_request((3, 3), &view), Some((4, 3)));
    assert_eq!(size_to_request((4, 3), &view), None);
}
