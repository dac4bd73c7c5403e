//! The words that command the 4K panel.

use vstd::prelude::*;

verus! {

/// Columns of the panel.
pub const COLS: u16 = 3840;

/// Rows of the panel.
pub const ROWS: u16 = 2400;

/// A command to the panel.
#[derive(Clone, Copy, Debug, PartialEq, Eq, Structural)]
pub enum Command {
    GetVersion,
    StartDrawing,
    SetPalette,
    GetPalette,
}

impl Command {
    /// The words that go out for the command: its number, then zero.
    pub fn cmd(&self) -> (words: [u16; 2])
        ensures
            words@ == seq![
                match self {
                    Command::GetVersion => 0xF0u16,
                    Command::StartDrawing => 0xFBu16,
                    Command::SetPalette => 0xF1u16,
                    Command::GetPalette => 0xF2u16,
                },
                0u16,
            ],
    {
        let code: u16 = match self {
            Command::GetVersion => 0xF0,
            Command::StartDrawing => 0xFB,
            Command::SetPalette => 0xF1,
            Command::GetPalette => 0xF2,
        };
        [code, 0]
    }
}

/// The palette that maps each of the 16 greys to itself.
pub fn default_palette() -> (map: [u16; 16])
    ensures
        forall|i: int| 0 <= i < 16 ==> #[trigger] map@[i] == 17 * i,
{
    [
        0x00,
        0x11,
        0x22,
        0x33,
        0x44,
        0x55,
        0x66,
        0x77,
        0x88,
        0x99,
        0xaa,
        0xbb,
        0xcc,
        0xdd,
        0xee,
        0xff,
    ]
}

/// The version of the panel's firmware, from the two words that answer
/// the request: the second is the upper half.
pub fn get_version(rx: &[u16; 2]) -> (version: u32)
    ensures
        version == rx@[1] * 65536 + rx@[0],
{
    (rx[1] as u32) * 65536 + rx[0] as u32
}

} // verus!
