//! The touch screen's TFT: the words that frame a drawing.

use vstd::prelude::*;

verus! {

/// Columns of the display.
pub const WIDTH: u16 = 480;

/// Rows of the display.
pub const HEIGHT: u16 = 320;

/// A word for the display's bus.
#[derive(Clone, Copy, Debug, PartialEq, Eq, Structural)]
pub enum BusWord {
    /// A word for the command register.
    Cmd(u16),
    /// A word for the data register.
    Data(u16),
}

/// The two data words of a 16-bit number: the upper byte, then the lower.
pub fn write_data_as_two_u8(v: u16) -> (words: [BusWord; 2])
    ensures
        words@ == seq![BusWord::Data(v / 256), BusWord::Data(v % 256)],
{
    [BusWord::Data(v / 256), BusWord::Data(v % 256)]
}

/// The words that open a drawing into the window from `top_left` up to,
/// not including, `bottom_right`: the columns, the rows, then the command
/// to write pixels.
pub fn start_drawing(top_left: (u16, u16), bottom_right: (u16, u16)) -> (words: [BusWord; 11])
    requires
        bottom_right.0 > 0,
        bottom_right.1 > 0,
    ensures
        words@ == seq![
            BusWord::Cmd(0x2A),
            BusWord::Data(top_left.0 / 256),
            BusWord::Data(top_left.0 % 256),
            BusWord::Data(((bottom_right.0 - 1) / 256) as u16),
            BusWord::Data(((bottom_right.0 - 1) % 256) as u16),
            BusWord::Cmd(0x2B),
            BusWord::Data(top_left.1 / 256),
            BusWord::Data(top_left.1 % 256),
            BusWord::Data(((bottom_right.1 - 1) / 256) as u16),
            BusWord::Data(((bottom_right.1 - 1) % 256) as u16),
            BusWord::Cmd(0x2C),
        ],
{
    let (left, top) = top_left;
    let right: u16 = bottom_right.0 - 1;
    let bottom: u16 = bottom_right.1 - 1;
    [
        BusWord::Cmd(0x2A),
        BusWord::Data(left / 256),
        BusWord::Data(left % 256),
        BusWord::Data(right / 256),
        BusWord::Data(right % 256),
        BusWord::Cmd(0x2B),
        BusWord::Data(top / 256),
        BusWord::Data(top % 256),
        BusWord::Data(bottom / 256),
        BusWord::Data(bottom % 256),
        BusWord::Cmd(0x2C),
    ]
}

/// The words that open a drawing into the whole screen.
pub fn start_drawing_full_screen() -> (words: [BusWord; 11])
    ensures
        words@ == seq![
            BusWord::Cmd(0x2A),
            BusWord::Data(0),
            BusWord::Data(0),
            BusWord::Data(1),
            BusWord::Data(223),
            BusWord::Cmd(0x2B),
            BusWord::Data(0),
            BusWord::Data(0),
            BusWord::Data(1),
            BusWord::Data(63),
            BusWord::Cmd(0x2C),
        ],
{
    start_drawing((0, 0), (WIDTH, HEIGHT))
}

/// The pixels that fill the screen.
pub fn fill_screen() -> (pixels: u32)
    ensures
        pixels == WIDTH * HEIGHT,
{
    (WIDTH as u32) * (HEIGHT as u32)
}

/// Whether a pixel at `(x, y)` is within reach of the display. The far
/// edges count as within reach.
pub fn draw_iter(x: i32, y: i32) -> (drawn: bool)
    ensures
        drawn == (0 <= x <= WIDTH && 0 <= y <= HEIGHT),
{
    0 <= x && x <= WIDTH as i32 && 0 <= y && y <= HEIGHT as i32
}

} // verus!
