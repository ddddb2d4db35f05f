//! Bitmaps of the `image` crate and rectangular views into them.
//!
//! The crate's image types stay opaque to the verifier. What they hold is
//! named here as plain rows of pixels, and every call into the crate has a
//! contract over those names that is believed, not proved.

use image::imageops::FilterType;
use image::{DynamicImage, GenericImageView, ImageError, RgbaImage, SubImage};
use vstd::math::max;
use vstd::prelude::*;

verus! {

/// `image`'s `DynamicImage`: a decoded image of any pixel format.
#[verifier::external_type_specification]
#[verifier::external_body]
pub struct ExDynamicImage(DynamicImage);

/// `image`'s `ImageError`: why an image could not be decoded.
#[verifier::external_type_specification]
#[verifier::external_body]
pub struct ExImageError(ImageError);

/// `image`'s `FilterType`: the sampling filters of `DynamicImage::resize`.
#[verifier::external_type_specification]
pub struct ExFilterType(FilterType);

/// An image of 8-bit RGBA pixels, held as `image`'s `RgbaImage`.
#[verifier::external_body]
pub struct Bitmap {
    pixels: RgbaImage,
}

/// A rectangular window into a bitmap, held as `image`'s `SubImage`.
#[verifier::external_body]
pub struct FrameView<'a> {
    window: SubImage<&'a RgbaImage>,
}

/// The pixels of a bitmap: its rows from top to bottom, each from left to
/// right, each pixel as (red, green, blue, alpha).
pub uninterp spec fn bitmap_rows(bitmap: Bitmap) -> Seq<Seq<(u8, u8, u8, u8)>>;

/// The width of a bitmap, which its rows cannot tell where it has none.
pub uninterp spec fn bitmap_width(bitmap: Bitmap) -> nat;

/// The pixels seen through a view, laid out as `bitmap_rows` lays them out.
pub uninterp spec fn view_rows(view: FrameView) -> Seq<Seq<(u8, u8, u8, u8)>>;

/// The width of a view.
pub uninterp spec fn view_width(view: FrameView) -> nat;

/// The width and height of a decoded image.
pub uninterp spec fn dynamic_size(image: DynamicImage) -> (nat, nat);

/// The image that `DynamicImage::resize` makes of `image` for the bounds
/// `nwidth` and `nheight` with `filter`.
pub uninterp spec fn resized(
    image: DynamicImage,
    nwidth: u32,
    nheight: u32,
    filter: FilterType,
) -> DynamicImage;

/// The bitmap that `DynamicImage::into_rgba8` makes of `image`.
pub uninterp spec fn rgba8(image: DynamicImage) -> Bitmap;

/// The window of `rows` whose top left corner is at column `x` and row `y`
/// and which is `width` pixels wide and `height` pixels high.
pub open spec fn crop(
    rows: Seq<Seq<(u8, u8, u8, u8)>>,
    x: int,
    y: int,
    width: int,
    height: int,
) -> Seq<Seq<(u8, u8, u8, u8)>> {
    Seq::new(height as nat, |r: int| Seq::new(width as nat, |c: int| rows[y + r][x + c]))
}

/// Whether resizing an image of `size` to the bounds `nwidth` and `nheight`
/// stays within what a vector can hold. The resized image is no larger than
/// the bounds, or one pixel where a bound is zero; on the way an image as
/// wide as the source and as high as the result is built; and a pixel takes
/// at most 16 bytes.
pub open spec fn resizable(size: (nat, nat), nwidth: u32, nheight: u32) -> bool {
    16 * max(size.0 as int, max(nwidth as int, 1)) * max(nheight as int, 1) <= isize::MAX
}

/// `image::load_from_memory`: guesses the format of `bytes` and decodes
/// them. Which formats are known, and how each is decoded, can be changed
/// for the whole process through `image::hooks`, so nothing is promised of
/// what comes back: the same bytes may decode at one call and not at the
/// next.
#[verifier::external_body]
pub(crate) fn decode(bytes: &[u8]) -> (r: Result<DynamicImage, ImageError>) {
    image::load_from_memory(bytes)
}

/// `GenericImageView::dimensions` of a `DynamicImage`: its width and height.
#[verifier::external_body]
pub(crate) fn dynamic_dimensions(image: &DynamicImage) -> (d: (u32, u32))
    ensures
        (d.0 as nat, d.1 as nat) == dynamic_size(*image),
{
    image.dimensions()
}

/// `DynamicImage::resize`: a new image, scaled to fit the bounds. It
/// allocates the buffers that `resizable` counts and panics where one is too
/// large for a vector; with the nearest-neighbour filter, whose weights are
/// all one, nothing else in it can fail.
#[verifier::external_body]
pub(crate) fn resize(image: &DynamicImage, nwidth: u32, nheight: u32, filter: FilterType) -> (r:
    DynamicImage)
    requires
        filter is Nearest,
        resizable(dynamic_size(*image), nwidth, nheight),
    ensures
        r == resized(*image, nwidth, nheight, filter),
{
    image.resize(nwidth, nheight, filter)
}

/// The conversion of a `DynamicImage` into an `RgbaImage`, which is
/// `DynamicImage::into_rgba8`: an image in that format is handed on as it
/// is, any other is copied pixel by pixel, so the bitmap is as wide and as
/// high as the image.
#[verifier::external_body]
pub(crate) fn into_bitmap(image: DynamicImage) -> (bitmap: Bitmap)
    ensures
        bitmap == rgba8(image),
        bitmap_width(bitmap) == dynamic_size(image).0,
        bitmap_rows(bitmap).len() == dynamic_size(image).1,
{
    Bitmap { pixels: image.into() }
}

impl Bitmap {
    /// `ImageBuffer::dimensions`: the width and the height, which is the
    /// number of rows.
    #[verifier::external_body]
    pub(crate) fn dimensions(&self) -> (d: (u32, u32))
        ensures
            d.0 == bitmap_width(*self),
            d.1 == bitmap_rows(*self).len(),
    {
        self.pixels.dimensions()
    }

    /// `GenericImageView::view`: the window at `(x, y)` of the given size.
    /// The call panics where the window leaves the image, which `requires`
    /// leaves out.
    #[verifier::external_body]
    pub(crate) fn view<'a>(&'a self, x: u32, y: u32, width: u32, height: u32) -> (v: FrameView<'a>)
        requires
            x + width <= bitmap_width(*self),
            y + height <= bitmap_rows(*self).len(),
        ensures
            view_width(v) == width,
            view_rows(v) == crop(
                bitmap_rows(*self),
                x as int,
                y as int,
                width as int,
                height as int,
            ),
    {
        FrameView { window: self.pixels.view(x, y, width, height) }
    }
}

impl<'a> FrameView<'a> {
    /// The width and height of the view, by `GenericImageView::dimensions`.
    #[verifier::external_body]
    pub(crate) fn dimensions(&self) -> (d: (u32, u32))
        ensures
            d.0 == view_width(*self),
            d.1 == view_rows(*self).len(),
    {
        self.window.dimensions()
    }

    /// The pixel in column `x` and row `y` of the view, as (red, green, blue,
    /// alpha), by `GenericImageView::get_pixel`. Outside the view the call
    /// panics or reads a pixel that the view does not show, which `requires`
    /// leaves out.
    #[verifier::external_body]
    pub(crate) fn get_pixel(&self, x: u32, y: u32) -> (p: (u8, u8, u8, u8))
        requires
            x < view_width(*self),
            y < view_rows(*self).len(),
        ensures
            p == view_rows(*self)[y as int][x as int],
    {
        let image::Rgba([r, g, b, a]) = self.window.get_pixel(x, y);
        (r, g, b, a)
    }

    /// The width of the view, in pixels.
    pub fn width(&self) -> (w: u32)
        ensures
            w == view_width(*self),
    {
        self.dimensions().0
    }

    /// The height of the view, in pixels.
    pub fn height(&self) -> (h: u32)
        ensures
            h == view_rows(*self).len(),
    {
        self.dimensions().1
    }

    /// The pixel in column `x` and row `y` of the view, as (red, green, blue,
    /// alpha), or nothing where the view has no such pixel.
    pub fn pixel(&self, x: u32, y: u32) -> (p: Option<(u8, u8, u8, u8)>)
        ensures
            p is Some <==> x < view_width(*self) && y < view_rows(*self).len(),
            p matches Some(pixel) ==> pixel == view_rows(*self)[y as int][x as int],
    {
        let size: (u32, u32) = self.dimensions();
        if x < size.0 && y < size.1 {
            Some(self.get_pixel(x, y))
        } else {
            None
        }
    }
}

} // verus!
