//! The sprite sheet: a bitmap cut into a grid of cells of one size.

use crate::raster::{
    bitmap_rows, bitmap_width, crop, decode, dynamic_dimensions, dynamic_size, into_bitmap,
    resizable, resize, resized, rgba8, view_rows, view_width, Bitmap, FrameView,
};
use crate::steering::SCALE;
use image::imageops::FilterType;
use image::{DynamicImage, ImageError};
use std::time::Duration;
use vstd::prelude::*;

verus! {

/// Grid coordinate (column, row) of one cell of the sprite sheet.
#[derive(Debug, Clone, Copy, PartialEq, Eq, Structural)]
pub struct FrameRef(pub u32, pub u32);

/// A looping list of sprite cells, each shown for `interval`.
pub struct Animation {
    pub frames: &'static [FrameRef],
    pub interval: Duration,
}

/// The duration of `ms` milliseconds, as `Duration::from_millis` builds it.
pub uninterp spec fn millis(ms: u64) -> Duration;

/// `Duration::from_millis` is a function of its argument: two durations made
/// from the same count of milliseconds are the same value.
pub assume_specification[ Duration::from_millis ](ms: u64) -> (d: Duration)
    ensures
        d == millis(ms),
;

/// The edge of a cell of the sprite artwork, in pixels of the artwork.
pub const CELL: u32 = 32;

/// The cell that an animation of `frames` shows at tick `tick`: the
/// animation starts again whenever it has run through.
pub open spec fn frame_at(frames: Seq<FrameRef>, tick: nat) -> FrameRef {
    frames[tick as int % frames.len() as int]
}

/// What a sprite sheet is: the rows of its bitmap, the bitmap's width and
/// the size of a cell.
pub struct SheetView {
    pub rows: Seq<Seq<(u8, u8, u8, u8)>>,
    pub width: nat,
    pub cell: (u32, u32),
}

impl SheetView {
    /// Whether the cell at `frame` lies within the bitmap.
    pub open spec fn contains(self, frame: FrameRef) -> bool {
        &&& (frame.0 + 1) * self.cell.0 <= self.width
        &&& (frame.1 + 1) * self.cell.1 <= self.rows.len()
    }

    /// The pixels of the cell at `frame`.
    pub open spec fn frame(self, frame: FrameRef) -> Seq<Seq<(u8, u8, u8, u8)>> {
        crop(
            self.rows,
            frame.0 * self.cell.0,
            frame.1 * self.cell.1,
            self.cell.0 as int,
            self.cell.1 as int,
        )
    }
}

/// An animation shows the same cell again after as many ticks as it has
/// frames, and so the same pixels of any sheet.
pub proof fn lemma_animation_is_periodic(sheet: SheetView, frames: Seq<FrameRef>, tick: nat)
    requires
        frames.len() > 0,
    ensures
        frame_at(frames, tick) == frame_at(frames, tick + frames.len()),
        sheet.frame(frame_at(frames, tick)) == sheet.frame(frame_at(frames, tick + frames.len())),
{
    vstd::arithmetic::div_mod::lemma_mod_add_multiples_vanish(
        tick as int,
        frames.len() as int,
    );
}

/// Why a sprite sheet could not be loaded.
#[derive(Debug, Clone, Copy, PartialEq, Eq, Structural)]
pub enum SheetError {
    /// The bytes do not decode to an image.
    Undecodable,
    /// The image is too large to be scaled up.
    TooLarge,
}

/// Whether an image of `size` can be scaled up by `SCALE`.
pub open spec fn scalable(size: (nat, nat)) -> bool {
    &&& SCALE * size.0 <= u32::MAX
    &&& SCALE * size.1 <= u32::MAX
    &&& resizable(size, (SCALE * size.0) as u32, (SCALE * size.1) as u32)
}

/// The sprite sheet made of the artwork `image`: the image scaled up by
/// `SCALE` without blending, cut into cells of `CELL` pixels of the artwork.
pub open spec fn sheet_of(image: DynamicImage) -> SheetView {
    let size = dynamic_size(image);
    let bitmap = rgba8(
        resized(image, (SCALE * size.0) as u32, (SCALE * size.1) as u32, FilterType::Nearest),
    );
    SheetView {
        rows: bitmap_rows(bitmap),
        width: bitmap_width(bitmap),
        cell: ((CELL * SCALE) as u32, (CELL * SCALE) as u32),
    }
}

/// A bitmap and the size of the cells into which it is cut.
pub struct SpriteSheet {
    image: Bitmap,
    sprite_size: (u32, u32),
    /// The width and height of `image`, read once when the sheet is made.
    bounds: (u32, u32),
}

impl View for SpriteSheet {
    type V = SheetView;

    closed spec fn view(&self) -> SheetView {
        SheetView {
            rows: bitmap_rows(self.image),
            width: bitmap_width(self.image),
            cell: self.sprite_size,
        }
    }
}

impl SpriteSheet {
    #[verifier::type_invariant]
    spec fn bounds_are_known(self) -> bool {
        &&& self.bounds.0 == bitmap_width(self.image)
        &&& self.bounds.1 == bitmap_rows(self.image).len()
    }

    /// A sheet of `image`, converted to 8-bit RGBA, with cells of
    /// `sprite_size`. The sheet's bitmap is as wide and as high as `image`.
    pub fn new(image: DynamicImage, sprite_size: (u32, u32)) -> (sheet: Self)
        ensures
            sheet@ == (SheetView {
                rows: bitmap_rows(rgba8(image)),
                width: bitmap_width(rgba8(image)),
                cell: sprite_size,
            }),
            sheet@.width == dynamic_size(image).0,
            sheet@.rows.len() == dynamic_size(image).1,
    {
        let image: Bitmap = into_bitmap(image);
        let bounds: (u32, u32) = image.dimensions();
        SpriteSheet { image, sprite_size, bounds }
    }

    /// The sheet of the sprite artwork `image`: the image scaled up by
    /// `SCALE`, cut into cells of `CELL` pixels of the artwork.
    pub fn from_artwork(image: DynamicImage) -> (r: Result<Self, SheetError>)
        ensures
            match r {
                Ok(sheet) => scalable(dynamic_size(image)) && sheet@ == sheet_of(image),
                Err(error) => error == SheetError::TooLarge && !scalable(dynamic_size(image)),
            },
    {
        let size: (u32, u32) = dynamic_dimensions(&image);
        let width: u64 = SCALE as u64 * size.0 as u64;
        let height: u64 = SCALE as u64 * size.1 as u64;
        if width > u32::MAX as u64 || height > u32::MAX as u64 {
            return Err(SheetError::TooLarge);
        }
        let widest: u64 = if width > 1 {
            width
        } else {
            1
        };
        let highest: u64 = if height > 1 {
            height
        } else {
            1
        };
        assert(16 * widest * highest <= 16 * 0xffff_ffff * 0xffff_ffff) by (nonlinear_arith)
            requires
                0 <= widest <= 0xffff_ffff,
                0 <= highest <= 0xffff_ffff,
        ;
        let needed: u128 = 16 * (widest as u128) * (highest as u128);
        if needed > isize::MAX as u128 {
            return Err(SheetError::TooLarge);
        }
        let scaled: DynamicImage = resize(&image, width as u32, height as u32, FilterType::Nearest);
        Ok(SpriteSheet::new(scaled, (CELL * SCALE, CELL * SCALE)))
    }

    /// The sheet of what a decoder made of the sprite artwork: the sheet of
    /// the image where it made one, and else the news that it made none.
    pub fn from_decoded(outcome: Result<DynamicImage, ImageError>) -> (r: Result<Self, SheetError>)
        ensures
            match outcome {
                Ok(image) => match r {
                    Ok(sheet) => scalable(dynamic_size(image)) && sheet@ == sheet_of(image),
                    Err(error) => error == SheetError::TooLarge && !scalable(dynamic_size(image)),
                },
                Err(_) => r matches Err(error) && error == SheetError::Undecodable,
            },
    {
        match outcome {
            Ok(image) => SpriteSheet::from_artwork(image),
            Err(_) => Err(SheetError::Undecodable),
        }
    }

    /// Decodes the sprite artwork from `bytes` and makes its sheet.
    ///
    /// Whether the bytes decode, and to what, is the decoder's word alone. A
    /// sheet that comes back is the sheet of some image that can be scaled,
    /// and `TooLarge` comes back for some image that cannot.
    pub fn load(bytes: &[u8]) -> (r: Result<Self, SheetError>)
        ensures
            match r {
                Ok(sheet) => exists|image: DynamicImage|
                    scalable(dynamic_size(image)) && sheet@ == #[trigger] sheet_of(image),
                Err(SheetError::TooLarge) => exists|image: DynamicImage|
                    !scalable(#[trigger] dynamic_size(image)),
                Err(SheetError::Undecodable) => true,
            },
    {
        SpriteSheet::from_decoded(decode(bytes))
    }

    /// The size of a cell: its width and height.
    pub fn get_size(&self) -> (size: (u32, u32))
        ensures
            size == self@.cell,
    {
        self.sprite_size
    }

    /// Whether the cell at `frame_ref` lies within the bitmap.
    pub fn has_frame(&self, frame_ref: FrameRef) -> (b: bool)
        ensures
            b == self@.contains(frame_ref),
    {
        proof {
            use_type_invariant(self);
        }
        let column: u64 = frame_ref.0 as u64 + 1;
        let row: u64 = frame_ref.1 as u64 + 1;
        let cell_width: u64 = self.sprite_size.0 as u64;
        let cell_height: u64 = self.sprite_size.1 as u64;
        assert(column * cell_width <= 0x1_0000_0000 * 0xffff_ffff) by (nonlinear_arith)
            requires
                0 <= column <= 0x1_0000_0000,
                0 <= cell_width <= 0xffff_ffff,
        ;
        assert(row * cell_height <= 0x1_0000_0000 * 0xffff_ffff) by (nonlinear_arith)
            requires
                0 <= row <= 0x1_0000_0000,
                0 <= cell_height <= 0xffff_ffff,
        ;
        column * cell_width <= self.bounds.0 as u64 && row * cell_height <= self.bounds.1 as u64
    }

    /// A view of the cell at `frame_ref`, which must lie within the bitmap.
    pub fn get_frame_view<'a>(&'a self, frame_ref: FrameRef) -> (v: FrameView<'a>)
        requires
            self@.contains(frame_ref),
        ensures
            view_width(v) == self@.cell.0,
            view_rows(v) == self@.frame(frame_ref),
    {
        let width: u32 = self.sprite_size.0;
        let height: u32 = self.sprite_size.1;
        proof {
            use_type_invariant(self);
        }
        assert(frame_ref.0 * width + width == (frame_ref.0 + 1) * width) by (nonlinear_arith);
        assert(frame_ref.1 * height + height == (frame_ref.1 + 1) * height) by (nonlinear_arith);
        let x: u32 = frame_ref.0 * width;
        let y: u32 = frame_ref.1 * height;
        self.image.view(x, y, width, height)
    }

    /// A view of the cell at `frame_ref`, or nothing where that cell does
    /// not lie within the bitmap.
    pub fn try_frame_view<'a>(&'a self, frame_ref: FrameRef) -> (v: Option<FrameView<'a>>)
        ensures
            v is Some <==> self@.contains(frame_ref),
            v matches Some(view) ==> view_width(view) == self@.cell.0 && view_rows(view)
                == self@.frame(frame_ref),
    {
        if self.has_frame(frame_ref) {
            Some(self.get_frame_view(frame_ref))
        } else {
            None
        }
    }

    /// A view of the cell that `animation` shows at tick `frame_count`. The
    /// animation must have a frame, and that cell must lie within the
    /// bitmap.
    pub fn get_anim_view<'a>(&'a self, animation: &Animation, frame_count: usize) -> (v: FrameView<
        'a,
    >)
        requires
            animation.frames@.len() > 0,
            self@.contains(frame_at(animation.frames@, frame_count as nat)),
        ensures
            view_width(v) == self@.cell.0,
            view_rows(v) == self@.frame(frame_at(animation.frames@, frame_count as nat)),
    {
        self.get_frame_view(animation.frames[frame_count % animation.frames.len()])
    }
}

} // verus!
