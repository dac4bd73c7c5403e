//! The words that command the panel's FPGA.

use vstd::prelude::*;

verus! {

/// The byte that opens every command.
pub const CMD_PREFIX: u8 = 0xfe;

/// The word that opens every reply.
pub const REPLY_HEADER: u16 = 0xfbfd;

/// How many words are read while the reply is waited for.
pub const REPLY_ATTEMPTS: u8 = 3;

/// A command to the FPGA.
#[derive(Clone, Copy, Debug, PartialEq, Eq, Structural)]
pub enum Command {
    MaskDisplay,
    Unknown03,
    GetResolution,
    UnmaskDisplay,
    Unknown10,
    Unknown20,
    StartDrawing,
}

impl Command {
    /// The number of the command.
    pub open spec fn spec_code(self) -> u8 {
        match self {
            Command::MaskDisplay => 0x00,
            Command::Unknown03 => 0x03,
            Command::GetResolution => 0x04,
            Command::UnmaskDisplay => 0x08,
            Command::Unknown10 => 0x10,
            Command::Unknown20 => 0x20,
            Command::StartDrawing => 0xfd,
        }
    }

    /// The word that goes out for the command: the prefix above the
    /// command's number.
    pub fn cmd(&self) -> (word: u16)
        ensures
            word == CMD_PREFIX * 256 + self.spec_code(),
    {
        let code: u16 = match self {
            Command::MaskDisplay => 0x00,
            Command::Unknown03 => 0x03,
            Command::GetResolution => 0x04,
            Command::UnmaskDisplay => 0x08,
            Command::Unknown10 => 0x10,
            Command::Unknown20 => 0x20,
            Command::StartDrawing => 0xfd,
        };
        (CMD_PREFIX as u16) * 256 + code
    }
}

/// The commands that open a drawing, in order.
pub fn start_drawing_raw() -> (commands: [Command; 4])
    ensures
        commands@ == seq![
            Command::MaskDisplay,
            Command::Unknown10,
            Command::Unknown20,
            Command::StartDrawing,
        ],
{
    [Command::MaskDisplay, Command::Unknown10, Command::Unknown20, Command::StartDrawing]
}

/// Whether the reply has begun, given the words read so far: one of the
/// first `REPLY_ATTEMPTS` of them is the reply header.
pub fn wait_for_reply(words: &[u16]) -> (r: Result<(), ()>)
    ensures
        r is Ok <==> exists|i: int|
            0 <= i < words@.len() && i < REPLY_ATTEMPTS && #[trigger] words@[i] == REPLY_HEADER,
{
    let mut i: usize = 0;
    while i < words.len() && i < REPLY_ATTEMPTS as usize
        invariant
            i <= words@.len(),
            i <= REPLY_ATTEMPTS,
            forall|j: int| 0 <= j < i ==> #[trigger] words@[j] != REPLY_HEADER,
        decreases words@.len() - i,
    {
        if words[i] == REPLY_HEADER {
            return Ok(());
        }
        i = i + 1;
    }
    Err(())
}

/// A dimension of the panel, from the word that the FPGA sent: its bytes
/// come in the other order.
pub fn get_resolution(word: u16) -> (pixels: u16)
    ensures
        pixels == (word % 256) * 256 + word / 256,
{
    (word % 256) * 256 + word / 256
}

} // verus!
