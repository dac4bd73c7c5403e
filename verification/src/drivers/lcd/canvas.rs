//! Test patterns for the masking LCD: the grey of each pixel, or of each
//! run of pixels.

use vstd::prelude::*;

verus! {

/// A regular 8-bit grey.
pub type Color8 = u8;

pub const WHITE: u8 = 0xFF;

pub const BLACK: u8 = 0x00;

/// Columns of the panel.
pub const WIDTH: u32 = 3840;

/// Rows of the panel.
pub const HEIGHT: u32 = 2400;

/// The run that fills the panel with black.
pub fn set_all_black() -> (run: (Color8, u32))
    ensures
        run == (BLACK, (HEIGHT * WIDTH) as u32),
{
    (BLACK, HEIGHT * WIDTH)
}

/// The run that fills the panel with white.
pub fn set_all_white() -> (run: (Color8, u32))
    ensures
        run == (WHITE, (HEIGHT * WIDTH) as u32),
{
    (WHITE, HEIGHT * WIDTH)
}

/// Stripe `i` of `n` stripes: black and white in turn, each an `n`-th of
/// the panel.
pub fn stripes(i: u32, n: u32) -> (run: (Color8, u32))
    requires
        n > 0,
    ensures
        run.0 == if i % 2 == 0 {
            BLACK
        } else {
            WHITE
        },
        run.1 == (HEIGHT * WIDTH) as int / n as int,
{
    let color: u8 = if i % 2 == 0 {
        BLACK
    } else {
        WHITE
    };
    (color, (HEIGHT * WIDTH) / n)
}

/// Row `y` of a gradient from black at the top to white at the bottom.
pub fn gradient(y: u32) -> (run: (Color8, u32))
    requires
        y < HEIGHT,
    ensures
        run.0 == 255 * y / 2400,
        run.1 == WIDTH,
{
    let color: u32 = (255 * y) / HEIGHT;
    (color as u8, WIDTH)
}

/// The pixel at column `x` of row `y` of a checkerboard of squares of `n`
/// pixels, the first of them white.
pub fn checker(x: u32, y: u32, n: u32) -> (color: Color8)
    requires
        n > 0,
    ensures
        color == if (x / n) % 2 == (y / n) % 2 {
            WHITE
        } else {
            BLACK
        },
{
    if (x / n) % 2 == (y / n) % 2 {
        WHITE
    } else {
        BLACK
    }
}

/// The pixel at column `col` of row `row` of a pattern of waves under a
/// white grid: `n * 255 * row * col / (HEIGHT * WIDTH)`, of which the low
/// eight bits count, between the lines of the grid.
pub fn waves(row: u32, col: u32, n: u64, grid: u16) -> (color: Color8)
    requires
        grid > 0,
        row < HEIGHT,
        col < WIDTH,
        n <= 0xFFFF_FFFF,
    ensures
        color == if (row as int % 65536) % (grid as int) == 0 || (col as int % 65536) % (
        grid as int) == 0 {
            WHITE as int
        } else {
            (n * 255 * row * col / 9_216_000) % 256
        },
{
    if (row % 65536) as u16 % grid == 0 || (col % 65536) as u16 % grid == 0 {
        WHITE
    } else {
        assert(row * col <= 2400 * 3840) by (nonlinear_arith)
            requires
                row < 2400,
                col < 3840,
        ;
        let area: u64 = (row as u64) * (col as u64);
        assert(n * 255 * area <= 0xFFFF_FFFF * 255 * 9_216_000) by (nonlinear_arith)
            requires
                n <= 0xFFFF_FFFF,
                area <= 9_216_000,
        ;
        assert(n * 255 * row * col == n * 255 * area) by (nonlinear_arith)
            requires
                area == row * col,
        ;
        ((n * 255 * area / 9_216_000) % 256) as u8
    }
}

} // verus!
