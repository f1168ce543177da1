//! The bitmap of the system-tray icon: an opaque 32×32 checkerboard of 4×4
//! cells in two colours, laid out as RGBA bytes row by row.

use vstd::prelude::*;
use vstd::arithmetic::div_mod::{lemma_fundamental_div_mod, lemma_fundamental_div_mod_converse};

verus! {

/// Width and height of the icon, in pixels.
pub const ICON_SIZE: usize = 32;

/// Side of one checkerboard cell, in pixels.
pub const ICON_CELL: usize = 4;

/// Number of bytes of the icon bitmap (four per pixel).
pub const ICON_BYTES: usize = 4096;

/// RGBA of the "on" cells (sky, #0ea5e9).
pub open spec fn sky() -> Seq<u8> {
    seq![14u8, 165u8, 233u8, 255u8]
}

/// RGBA of the "off" cells (slate, #1e293b).
pub open spec fn slate() -> Seq<u8> {
    seq![30u8, 41u8, 59u8, 255u8]
}

/// Whether the pixel at column `x`, row `y` belongs to a sky cell.
pub open spec fn is_sky_pixel(x: int, y: int) -> bool {
    (x / 4 + y / 4) % 2 == 0
}

/// Byte `k` of the icon bitmap: channel `k % 4` of pixel `k / 4`, pixels in
/// row-major order.
pub open spec fn icon_byte(k: int) -> u8 {
    let pixel = k / 4;
    let x = pixel % 32;
    let y = pixel / 32;
    if is_sky_pixel(x, y) {
        sky()[k % 4]
    } else {
        slate()[k % 4]
    }
}

proof fn lemma_byte_position(y: int, x: int, c: int)
    requires
        0 <= y < 32,
        0 <= x < 32,
        0 <= c < 4,
    ensures
        ((y * 32 + x) * 4 + c) / 4 == y * 32 + x,
        ((y * 32 + x) * 4 + c) % 4 == c,
        (y * 32 + x) % 32 == x,
        (y * 32 + x) / 32 == y,
{
    lemma_fundamental_div_mod_converse((y * 32 + x) * 4 + c, 4, y * 32 + x, c);
    lemma_fundamental_div_mod_converse(y * 32 + x, 32, y, x);
}

/// The RGBA bytes of the tray icon.
pub fn tray_icon_rgba() -> (v: Vec<u8>)
    ensures
        v.len() == ICON_BYTES,
        forall|k: int| 0 <= k < ICON_BYTES ==> #[trigger] v@[k] == icon_byte(k),
{
    let mut v: Vec<u8> = Vec::with_capacity(ICON_BYTES);
    let mut y: usize = 0;
    while y < ICON_SIZE
        invariant
            y <= ICON_SIZE,
            v.len() == y * 32 * 4,
            forall|k: int| 0 <= k < v.len() ==> #[trigger] v@[k] == icon_byte(k),
        decreases ICON_SIZE - y,
    {
        let mut x: usize = 0;
        while x < ICON_SIZE
            invariant
                y < ICON_SIZE,
                x <= ICON_SIZE,
                v.len() == (y * 32 + x) * 4,
                forall|k: int| 0 <= k < v.len() ==> #[trigger] v@[k] == icon_byte(k),
            decreases ICON_SIZE - x,
        {
            let on = (x / ICON_CELL + y / ICON_CELL) % 2 == 0;
            let rgba: [u8; 4] = if on {
                [14, 165, 233, 255]
            } else {
                [30, 41, 59, 255]
            };
            let ghost base = v.len() as int;
            proof {
                assert forall|c: int| 0 <= c < 4 implies icon_byte(base + c) == (if on {
                    sky()[c]
                } else {
                    slate()[c]
                }) by {
                    lemma_byte_position(y as int, x as int, c);
                }
            }
            let mut c: usize = 0;
            while c < 4
                invariant
                    c <= 4,
                    v.len() == base + c,
                    rgba@ == (if on { sky() } else { slate() }),
                    forall|c: int| 0 <= c < 4 ==> icon_byte(base + c) == (if on {
                        sky()[c]
                    } else {
                        slate()[c]
                    }),
                    forall|k: int| 0 <= k < v.len() ==> #[trigger] v@[k] == icon_byte(k),
                decreases 4 - c,
            {
                v.push(rgba[c]);
                assert(v@[base + c] == icon_byte(base + c));
                c = c + 1;
            }
            x = x + 1;
            assert(v.len() == (y * 32 + x) * 4) by (nonlinear_arith)
                requires
                    v.len() == base + 4,
                    base == (y * 32 + (x - 1)) * 4,
            ;
        }
        y = y + 1;
        assert(v.len() == y * 32 * 4) by (nonlinear_arith)
            requires
                v.len() == ((y - 1) * 32 + 32) * 4,
        ;
    }
    v
}

/// Every pixel of the tray icon is fully opaque: its alpha byte is 255.
pub proof fn icon_is_opaque(pixel: int)
    requires
        0 <= pixel < ICON_SIZE * ICON_SIZE,
    ensures
        icon_byte(pixel * 4 + 3) == 255,
{
    lemma_fundamental_div_mod_converse(pixel * 4 + 3, 4, pixel, 3);
}


/// The four RGBA bytes of the pixel at column `x`, row `y`.
pub open spec fn pixel_rgba(x: int, y: int) -> Seq<u8> {
    let base = (y * 32 + x) * 4;
    seq![icon_byte(base), icon_byte(base + 1), icon_byte(base + 2), icon_byte(base + 3)]
}

proof fn lemma_pixel_colour(x: int, y: int)
    requires
        0 <= x < 32,
        0 <= y < 32,
    ensures
        pixel_rgba(x, y) == (if is_sky_pixel(x, y) {
            sky()
        } else {
            slate()
        }),
{
    lemma_byte_position(y, x, 0);
    lemma_byte_position(y, x, 1);
    lemma_byte_position(y, x, 2);
    lemma_byte_position(y, x, 3);
    assert(pixel_rgba(x, y) =~= (if is_sky_pixel(x, y) {
        sky()
    } else {
        slate()
    }));
}

proof fn lemma_cell_steps(x: int)
    requires
        0 <= x < 32,
    ensures
        (x + 4) / 4 == x / 4 + 1,
        x % 4 != 3 ==> (x + 1) / 4 == x / 4,
        0 <= x / 4 < 8,
{
    lemma_fundamental_div_mod(x, 4);
    assert(0 <= x % 4 < 4);
    lemma_fundamental_div_mod_converse(x + 4, 4, x / 4 + 1, x % 4);
    if x % 4 != 3 {
        lemma_fundamental_div_mod_converse(x + 1, 4, x / 4, x % 4 + 1);
    }
}

proof fn lemma_sky_steps(x: int, y: int)
    requires
        0 <= x < 32,
        0 <= y < 32,
    ensures
        x + 4 < 32 ==> is_sky_pixel(x + 4, y) != is_sky_pixel(x, y),
        y + 4 < 32 ==> is_sky_pixel(x, y + 4) != is_sky_pixel(x, y),
        x % 4 != 3 && x + 1 < 32 ==> is_sky_pixel(x + 1, y) == is_sky_pixel(x, y),
        y % 4 != 3 && y + 1 < 32 ==> is_sky_pixel(x, y + 1) == is_sky_pixel(x, y),
        x < 4 && y < 4 ==> is_sky_pixel(x, y),
{
    lemma_cell_steps(x);
    lemma_cell_steps(y);
}

/// The tray icon is a checkerboard of 4×4 cells in sky and slate: every pixel
/// is one of the two colours, the top-left cell is sky, the pixels of one cell
/// share their colour, and cells next to each other, side by side or one
/// above the other, have different colours.
pub proof fn icon_is_checkerboard(x: int, y: int)
    requires
        0 <= x < 32,
        0 <= y < 32,
    ensures
        pixel_rgba(x, y) == sky() || pixel_rgba(x, y) == slate(),
        x < 4 && y < 4 ==> pixel_rgba(x, y) == sky(),
        x % 4 != 3 && x + 1 < 32 ==> pixel_rgba(x + 1, y) == pixel_rgba(x, y),
        y % 4 != 3 && y + 1 < 32 ==> pixel_rgba(x, y + 1) == pixel_rgba(x, y),
        x + 4 < 32 ==> pixel_rgba(x + 4, y) != pixel_rgba(x, y),
        y + 4 < 32 ==> pixel_rgba(x, y + 4) != pixel_rgba(x, y),
{
    lemma_sky_steps(x, y);
    lemma_pixel_colour(x, y);
    assert(sky()[0] != slate()[0]);
    if x + 1 < 32 {
        lemma_pixel_colour(x + 1, y);
    }
    if y + 1 < 32 {
        lemma_pixel_colour(x, y + 1);
    }
    if x + 4 < 32 {
        lemma_pixel_colour(x + 4, y);
    }
    if y + 4 < 32 {
        lemma_pixel_colour(x, y + 4);
    }
}

} // verus!
