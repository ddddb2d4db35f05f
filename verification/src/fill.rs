//! The compositor: draws a view into the pixel buffer of a window.

use crate::raster::{view_rows, view_width, FrameView};
use vstd::arithmetic::div_mod::lemma_fundamental_div_mod_converse;
use vstd::prelude::*;

verus! {

/// The pixel that shows what lies behind the window.
pub const TRANSPARENCY: u32 = 0x0000_0000;

/// The word that a window's buffer holds for the pixel `p` (red, green,
/// blue, alpha): its bytes are, from the highest down, alpha, red, green and
/// blue.
pub open spec fn packed(p: (u8, u8, u8, u8)) -> u32 {
    (p.3 as u32) << 24 | (p.0 as u32) << 16 | (p.1 as u32) << 8 | (p.2 as u32)
}

/// What a window shows in column `x` of row `y` once `rows`, which are
/// `width` pixels wide, have been drawn into its top left corner: their
/// pixel where they have one, and nothing elsewhere.
pub open spec fn drawn(rows: Seq<Seq<(u8, u8, u8, u8)>>, width: nat, x: int, y: int) -> u32 {
    if 0 <= x < width && 0 <= y < rows.len() {
        packed(rows[y][x])
    } else {
        TRANSPARENCY
    }
}

/// The place of column `x` of row `y` in a buffer that holds its rows one
/// after the other, each `width` pixels wide.
pub open spec fn place(x: int, y: int, width: int) -> int {
    y * width + x
}

/// Each byte of a packed pixel can be read back, so no two pixels pack to
/// the same word; only a pixel with no alpha at all is as clear as
/// `TRANSPARENCY` in its highest byte.
pub proof fn lemma_packed_bytes(p: (u8, u8, u8, u8))
    ensures
        packed(p) == p.3 * 0x100_0000 + p.0 * 0x1_0000 + p.1 * 0x100 + p.2,
        packed(p) >> 24 == p.3,
        (packed(p) >> 16) & 0xff == p.0,
        (packed(p) >> 8) & 0xff == p.1,
        packed(p) & 0xff == p.2,
{
    let r: u8 = p.0;
    let g: u8 = p.1;
    let b: u8 = p.2;
    let a: u8 = p.3;
    let word: u32 = (a as u32) << 24 | (r as u32) << 16 | (g as u32) << 8 | (b as u32);
    assert(word == a * 0x100_0000 + r * 0x1_0000 + g * 0x100 + b) by (bit_vector)
        requires
            word == (a as u32) << 24 | (r as u32) << 16 | (g as u32) << 8 | (b as u32),
    ;
    assert(word >> 24 == a && (word >> 16) & 0xff == r && (word >> 8) & 0xff == g && word & 0xff
        == b) by (bit_vector)
        requires
            word == (a as u32) << 24 | (r as u32) << 16 | (g as u32) << 8 | (b as u32),
    ;
}

/// Packs a pixel into a word of a window's buffer.
pub fn pack_pixel(p: (u8, u8, u8, u8)) -> (word: u32)
    ensures
        word == packed(p),
{
    (p.3 as u32) << 24 | (p.0 as u32) << 16 | (p.1 as u32) << 8 | (p.2 as u32)
}

/// The size that a window of size `current` should ask for so that it shows
/// all of `data` and no more, or nothing where it has that size already.
pub fn size_to_request(current: (u32, u32), data: &FrameView) -> (size: Option<(u32, u32)>)
    ensures
        size is None <==> current.0 == view_width(*data) && current.1 == view_rows(*data).len(),
        size matches Some(s) ==> s.0 == view_width(*data) && s.1 == view_rows(*data).len(),
{
    let wanted: (u32, u32) = (data.width(), data.height());
    if current.0 != wanted.0 || current.1 != wanted.1 {
        Some(wanted)
    } else {
        None
    }
}

/// Draws `data` into the top left corner of a window of `size.0` by `size.1`
/// pixels, whose buffer holds the window's rows one after the other.
///
/// What of `data` does not fit is cut off, and what `data` does not cover
/// becomes transparent. A window without pixels has an empty buffer, which
/// stays as it is.
pub fn fill_window(buffer: &mut [u32], size: (u32, u32), data: FrameView)
    requires
        old(buffer)@.len() == size.0 * size.1,
    ensures
        final(buffer)@.len() == old(buffer)@.len(),
        forall|x: int, y: int|
            0 <= x < size.0 && 0 <= y < size.1 ==> #[trigger] final(buffer)@[place(
                x,
                y,
                size.0 as int,
            )] == drawn(view_rows(data), view_width(data), x, y),
        size.0 == 0 || size.1 == 0 ==> final(buffer)@ == old(buffer)@,
{
    let source: (u32, u32) = data.dimensions();
    let ghost rows = view_rows(data);
    let ghost width = size.0 as int;
    let mut i: usize = 0;
    let mut y: u32 = 0;
    while y < size.1
        invariant
            y <= size.1,
            width == size.0,
            i == y * width,
            buffer@.len() == width * size.1,
            buffer@.len() == old(buffer)@.len(),
            rows == view_rows(data),
            source.0 == view_width(data),
            source.1 == rows.len(),
            forall|j: int|
                0 <= j < i ==> buffer@[j] == drawn(rows, source.0 as nat, j % width, j / width),
        decreases size.1 - y,
    {
        let mut x: u32 = 0;
        while x < size.0
            invariant
                x <= size.0,
                y < size.1,
                width == size.0,
                i == y * width + x,
                buffer@.len() == width * size.1,
                buffer@.len() == old(buffer)@.len(),
                rows == view_rows(data),
                source.0 == view_width(data),
                source.1 == rows.len(),
                forall|j: int|
                    0 <= j < i ==> buffer@[j] == drawn(
                        rows,
                        source.0 as nat,
                        j % width,
                        j / width,
                    ),
            decreases size.0 - x,
        {
            assert(y * width + width <= size.1 * width) by (nonlinear_arith)
                requires
                    y + 1 <= size.1,
                    0 <= width,
            ;
            let word: u32 = if x < source.0 && y < source.1 {
                pack_pixel(data.get_pixel(x, y))
            } else {
                TRANSPARENCY
            };
            proof {
                lemma_fundamental_div_mod_converse(i as int, width, y as int, x as int);
            }
            buffer[i] = word;
            i = i + 1;
            x = x + 1;
        }
        assert((y + 1) * width == y * width + width) by (nonlinear_arith);
        y = y + 1;
    }
    proof {
        if size.0 == 0 || size.1 == 0 {
            assert(width * size.1 == 0) by (nonlinear_arith)
                requires
                    width == 0 || size.1 == 0,
            ;
            assert(buffer@ =~= old(buffer)@);
        }
        assert forall|x: int, y: int| 0 <= x < size.0 && 0 <= y < size.1 implies #[trigger] buffer@[place(
            x,
            y,
            width,
        )] == drawn(rows, source.0 as nat, x, y) by {
            let j = place(x, y, width);
            assert(0 <= y * width && y * width + width <= size.1 * width) by (nonlinear_arith)
                requires
                    0 <= y,
                    y + 1 <= size.1,
                    0 <= width,
            ;
            lemma_fundamental_div_mod_converse(j, width, y, x);
        }
    }
}

} // verus!
