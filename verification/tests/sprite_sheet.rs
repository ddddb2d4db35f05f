use image::{DynamicImage, GrayImage, ImageFormat, Luma, Rgb, RgbImage, Rgba, RgbaImage};
use oneko::oneko::Oneko;
use oneko::sprite_sheet::{FrameRef, SheetError, SpriteSheet};
use oneko::states::{
    get_animation, sheet_shows_every_state, AnimState, AnimStateIdle, AnimStateMoving,
    AnimStateScratch,
};
use std::io::Cursor;

/// The pixel that the test images hold in column `x` of row `y`.
fn colour(x: u32, y: u32) -> (u8, u8, u8, u8) {
    (x as u8, y as u8, (x * 16 + y) as u8, (255 - x - y) as u8)
}

/// An image whose every pixel tells where it is.
fn picture(width: u32, height: u32) -> DynamicImage {
    DynamicImage::ImageRgba8(RgbaImage::from_fn(width, height, |x, y| {
        let (r, g, b, a) = colour(x, y);
        Rgba([r, g, b, a])
    }))
}

/// A sheet of eight by four cells of two by two pixels.
fn small_sheet() -> SpriteSheet {
    SpriteSheet::new(picture(16, 8), (2, 2))
}

/// Artwork of one cell whose four quarters have four colours.
fn artwork() -> RgbaImage {
    RgbaImage::from_fn(32, 32, |x, y| match (x < 16, y < 16) {
        (true, true) => Rgba([255, 0, 0, 255]),
        (false, true) => Rgba([0, 255, 0, 255]),
        (true, false) => Rgba([0, 0, 255, 255]),
        (false, false) => Rgba([255, 255, 255, 255]),
    })
}

#[test]
fn a_sheet_keeps_its_cell_size() {
    assert_eq!(small_sheet().get_size(), (2, 2));
    assert_eq!(SpriteSheet::new(picture(3, 3), (64, 48)).get_size(), (64, 48));
}

#[test]
fn a_frame_view_is_one_cell() {
    let sheet = small_sheet();
    let view = sheet.get_frame_view(FrameRef(3, 1));
    assert_eq!(view.width(), 2);
    assert_eq!(view.height(), 2);
    assert_eq!(view.pixel(0, 0), Some(colour(6, 2)));
    assert_eq!(view.pixel(1, 0), Some(colour(7, 2)));
    assert_eq!(view.pixel(0, 1), Some(colour(6, 3)));
    assert_eq!(view.pixel(1, 1), Some(colour(7, 3)));
}

#[test]
fn a_view_has_no_pixel_outside_its_cell() {
    let sheet = small_sheet();
    let view = sheet.get_frame_view(FrameRef(3, 1));
    assert_eq!(view.pixel(2, 0), None);
    assert_eq!(view.pixel(0, 2), None);
    assert_eq!(view.pixel(u32::MAX, u32::MAX), None);
}

#[test]
fn every_cell_of_the_grid_shows_its_own_pixels() {
    let sheet = SpriteSheet::new(picture(15, 6), (5, 3));
    for column in 0..3 {
        for row in 0..2 {
            let view = sheet.get_frame_view(FrameRef(column, row));
            assert_eq!((view.width(), view.height()), (5, 3));
            for x in 0..5 {
                for y in 0..3 {
                    assert_eq!(view.pixel(x, y), Some(colour(column * 5 + x, row * 3 + y)));
                }
            }
        }
    }
}

#[test]
fn a_sheet_knows_which_cells_it_holds() {
    let sheet = small_sheet();
    assert!(sheet.has_frame(FrameRef(0, 0)));
    assert!(sheet.has_frame(FrameRef(7, 3)));
    assert!(!sheet.has_frame(FrameRef(8, 0)));
    assert!(!sheet.has_frame(FrameRef(0, 4)));
    assert!(!sheet.has_frame(FrameRef(u32::MAX, u32::MAX)));
    // A cell that the bitmap holds only in part is not held.
    let ragged = SpriteSheet::new(picture(15, 7), (2, 2));
    assert!(ragged.has_frame(FrameRef(6, 2)));
    assert!(!ragged.has_frame(FrameRef(7, 2)));
    assert!(!ragged.has_frame(FrameRef(6, 3)));
}

#[test]
fn a_view_is_had_only_of_a_cell_that_the_sheet_holds() {
    let sheet = small_sheet();
    let view = sheet.try_frame_view(FrameRef(7, 3)).expect("the last cell");
    assert_eq!(view.pixel(1, 1), Some(colour(15, 7)));
    assert!(sheet.try_frame_view(FrameRef(8, 3)).is_none());
    assert!(sheet.try_frame_view(FrameRef(7, 4)).is_none());
}

#[test]
fn cells_without_pixels_are_held_anywhere() {
    let sheet = SpriteSheet::new(picture(4, 4), (0, 0));
    assert!(sheet.has_frame(FrameRef(1000, 1000)));
    let view = sheet.get_frame_view(FrameRef(1000, 1000));
    assert_eq!((view.width(), view.height()), (0, 0));
    assert_eq!(view.pixel(0, 0), None);
}

#[test]
fn an_animation_shows_its_frames_in_turn() {
    let sheet = small_sheet();
    let animation =
        get_animation(AnimState::Idle(AnimStateIdle::Scratch(AnimStateScratch::ScratchSelf)));
    // The frames are the cells (5, 0), (6, 0) and (7, 0).
    assert_eq!(sheet.get_anim_view(&animation, 0).pixel(0, 0), Some(colour(10, 0)));
    assert_eq!(sheet.get_anim_view(&animation, 1).pixel(0, 0), Some(colour(12, 0)));
    assert_eq!(sheet.get_anim_view(&animation, 2).pixel(0, 0), Some(colour(14, 0)));
    assert_eq!(sheet.get_anim_view(&animation, 3).pixel(0, 0), Some(colour(10, 0)));
    assert_eq!(sheet.get_anim_view(&animation, 100).pixel(0, 0), Some(colour(12, 0)));
}

#[test]
fn an_animation_starts_again_after_its_last_frame() {
    let sheet = small_sheet();
    for state in [
        AnimState::Alert,
        AnimState::Moving(AnimStateMoving::N),
        AnimState::Idle(AnimStateIdle::Sleeping),
        AnimState::Idle(AnimStateIdle::Scratch(AnimStateScratch::ScratchSelf)),
    ] {
        let animation = get_animation(state);
        let length = animation.frames.len();
        for tick in 0..12 {
            let now = sheet.get_anim_view(&animation, tick);
            let later = sheet.get_anim_view(&animation, tick + length);
            for x in 0..2 {
                for y in 0..2 {
                    assert_eq!(now.pixel(x, y), later.pixel(x, y), "{:?} {}", state, tick);
                }
            }
        }
    }
}

#[test]
fn the_last_tick_that_can_be_counted_has_a_frame() {
    let sheet = small_sheet();
    let animation = get_animation(AnimState::Moving(AnimStateMoving::E));
    // usize::MAX is odd: the second frame, the cell (3, 1).
    assert_eq!(sheet.get_anim_view(&animation, usize::MAX).pixel(0, 0), Some(colour(6, 2)));
}

#[test]
fn images_of_other_formats_are_converted() {
    let grey = DynamicImage::ImageLuma8(GrayImage::from_fn(4, 4, |x, y| Luma([(x * 4 + y) as u8])));
    let sheet = SpriteSheet::new(grey, (2, 2));
    let view = sheet.get_frame_view(FrameRef(1, 1));
    assert_eq!(view.pixel(1, 0), Some((14, 14, 14, 255)));
    let rgb = DynamicImage::ImageRgb8(RgbImage::from_fn(4, 4, |x, y| Rgb([x as u8, y as u8, 9])));
    let sheet = SpriteSheet::new(rgb, (2, 2));
    let view = sheet.get_frame_view(FrameRef(1, 0));
    assert_eq!(view.pixel(1, 1), Some((3, 1, 9, 255)));
}

#[test]
fn the_table_needs_eight_by_four_cells() {
    assert!(sheet_shows_every_state(&small_sheet()));
    assert!(sheet_shows_every_state(&SpriteSheet::new(picture(20, 9), (2, 2))));
    assert!(!sheet_shows_every_state(&SpriteSheet::new(picture(15, 8), (2, 2))));
    assert!(!sheet_shows_every_state(&SpriteSheet::new(picture(16, 7), (2, 2))));
    assert!(!sheet_shows_every_state(&SpriteSheet::new(picture(16, 8), (3, 2))));
}

#[test]
fn the_creature_is_shown_by_the_frame_of_its_state_and_tick() {
    let sheet = small_sheet();
    // Moving north shows the cells (1, 2) and (1, 3).
    let creature = Oneko::resume(AnimState::Moving(AnimStateMoving::N), 0, (0, 0));
    assert_eq!(creature.get_frame(&sheet).pixel(0, 0), Some(colour(2, 4)));
    let creature = Oneko::resume(AnimState::Moving(AnimStateMoving::N), 3, (0, 0));
    assert_eq!(creature.get_frame(&sheet).pixel(0, 0), Some(colour(2, 6)));
    let creature = Oneko::resume(AnimState::Moving(AnimStateMoving::N), u32::MAX, (0, 0));
    assert_eq!(creature.get_frame(&sheet).pixel(0, 0), Some(colour(2, 6)));
    let creature = Oneko::new((0, 0));
    assert_eq!(creature.get_frame(&sheet).pixel(1, 1), Some(colour(7, 7)));
}

#[test]
fn a_click_shows_at_the_next_frame() {
    let sheet = small_sheet();
    let mut creature = Oneko::resume(AnimState::Idle(AnimStateIdle::Sleeping), 5, (0, 0));
    assert_eq!(creature.get_frame(&sheet).pixel(0, 0), Some(colour(4, 2)));
    creature.click();
    // Alert is the cell (7, 3).
    assert_eq!(creature.get_frame(&sheet).pixel(0, 0), Some(colour(14, 6)));
}

#[test]
fn artwork_is_doubled_and_cut_into_cells_of_sixty_four() {
    let sheet = SpriteSheet::from_artwork(DynamicImage::ImageRgba8(artwork())).expect("a sheet");
    assert_eq!(sheet.get_size(), (64, 64));
    assert!(sheet.has_frame(FrameRef(0, 0)));
    assert!(!sheet.has_frame(FrameRef(1, 0)));
    assert!(!sheet.has_frame(FrameRef(0, 1)));
    let view = sheet.get_frame_view(FrameRef(0, 0));
    assert_eq!((view.width(), view.height()), (64, 64));
    let source = artwork();
    for x in 0..64 {
        for y in 0..64 {
            let Rgba([r, g, b, a]) = *source.get_pixel(x / 2, y / 2);
            assert_eq!(view.pixel(x, y), Some((r, g, b, a)), "({}, {})", x, y);
        }
    }
}

#[test]
fn doubling_does_not_blend_neighbours() {
    let source = RgbaImage::from_fn(32, 32, |x, y| Rgba([(x * 8) as u8, (y * 8) as u8, 7, 200]));
    let sheet = SpriteSheet::from_artwork(DynamicImage::ImageRgba8(source)).expect("a sheet");
    let view = sheet.get_frame_view(FrameRef(0, 0));
    assert_eq!(view.pixel(0, 0), Some((0, 0, 7, 200)));
    assert_eq!(view.pixel(1, 1), Some((0, 0, 7, 200)));
    assert_eq!(view.pixel(2, 1), Some((8, 0, 7, 200)));
    assert_eq!(view.pixel(63, 62), Some((248, 248, 7, 200)));
    assert_eq!(view.pixel(61, 3), Some((240, 8, 7, 200)));
}

#[test]
fn artwork_too_wide_to_double_is_refused() {
    let wide = RgbaImage::from_raw(0x8000_0000, 0, Vec::new()).expect("an image without rows");
    let refused = SpriteSheet::from_artwork(DynamicImage::ImageRgba8(wide));
    assert_eq!(refused.err(), Some(SheetError::TooLarge));
    let high = RgbaImage::from_raw(0, 0xffff_ffff, Vec::new()).expect("an image without columns");
    let refused = SpriteSheet::from_artwork(DynamicImage::ImageRgba8(high));
    assert_eq!(refused.err(), Some(SheetError::TooLarge));
}

#[test]
fn artwork_without_pixels_makes_a_sheet_without_cells() {
    let empty = RgbaImage::from_raw(0, 0, Vec::new()).expect("an empty image");
    let sheet = SpriteSheet::from_artwork(DynamicImage::ImageRgba8(empty)).expect("a sheet");
    assert_eq!(sheet.get_size(), (64, 64));
    assert!(!sheet.has_frame(FrameRef(0, 0)));
}

#[test]
fn a_sheet_is_loaded_from_an_encoded_image() {
    let mut encoded = Cursor::new(Vec::new());
    DynamicImage::ImageRgba8(artwork())
        .write_to(&mut encoded, ImageFormat::Gif)
        .expect("an encoded image");
    let sheet = SpriteSheet::load(encoded.get_ref()).expect("a sheet");
    assert_eq!(sheet.get_size(), (64, 64));
    assert!(sheet.has_frame(FrameRef(0, 0)));
    assert!(!sheet.has_frame(FrameRef(1, 0)));
    let view = sheet.get_frame_view(FrameRef(0, 0));
    assert_eq!(view.pixel(0, 0), Some((255, 0, 0, 255)));
    assert_eq!(view.pixel(31, 31), Some((255, 0, 0, 255)));
    assert_eq!(view.pixel(32, 31), Some((0, 255, 0, 255)));
    assert_eq!(view.pixel(31, 32), Some((0, 0, 255, 255)));
    assert_eq!(view.pixel(63, 63), Some((255, 255, 255, 255)));
}

#[test]
fn bytes_that_are_no_image_are_refused() {
    assert_eq!(SpriteSheet::load(b"not an image at all").err(), Some(SheetError::Undecodable));
    assert_eq!(SpriteSheet::load(&[]).err(), Some(SheetError::Undecodable));
    assert_eq!(SpriteSheet::load(b"GIF89a").err(), Some(SheetError::Undecodable));
}

#[test]
fn what_the_decoder_refused_makes_no_sheet() {
    let refused = image::load_from_memory(b"not an image at all");
    assert!(refused.is_err());
    assert_eq!(SpriteSheet::from_decoded(refused).err(), Some(SheetError::Undecodable));
}

#[test]
fn what_the_decoder_made_is_doubled_and_cut_into_cells() {
    let sheet = SpriteSheet::from_decoded(Ok(DynamicImage::ImageRgba8(artwork()))).expect("a sheet");
    assert_eq!(sheet.get_size(), (64, 64));
    let view = sheet.get_frame_view(FrameRef(0, 0));
    assert_eq!(view.pixel(31, 31), Some((255, 0, 0, 255)));
    assert_eq!(view.pixel(32, 32), Some((255, 255, 255, 255)));
    let wide = RgbaImage::from_raw(0x8000_0000, 0, Vec::new()).expect("an image without rows");
    let refused = SpriteSheet::from_decoded(Ok(DynamicImage::ImageRgba8(wide)));
    assert_eq!(refused.err(), Some(SheetError::TooLarge));
}

#[test]
fn a_sheet_is_as_large_as_its_image() {
    // Three by two cells of five by four pixels, and not one pixel more.
    let sheet = SpriteSheet::new(picture(15, 8), (5, 4));
    assert!(sheet.has_frame(FrameRef(2, 1)));
    assert!(!sheet.has_frame(FrameRef(3, 1)));
    assert!(!sheet.has_frame(FrameRef(2, 2)));
    let grey = DynamicImage::ImageLuma8(GrayImage::new(15, 8));
    let sheet = SpriteSheet::new(grey, (5, 4));
    assert!(sheet.has_frame(FrameRef(2, 1)));
    assert!(!sheet.has_frame(FrameRef(3, 1)));
    assert!(!sheet.has_frame(FrameRef(2, 2)));
}
