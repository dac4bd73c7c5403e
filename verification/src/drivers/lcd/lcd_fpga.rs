//! Loading the FPGA of the panel with its bitstream from the flash.

use vstd::prelude::*;

verus! {

/// Where the head of the bitstream lies in the flash.
pub const BITSTREAM_HEADER_OFFSET: u32 = 0x79000;

/// What the head of the bitstream starts with.
pub const BITSTREAM_MAGIC: u32 = 0x12FD0022;

/// Bytes of the head: the magic number and the size.
pub const BITSTREAM_HEADER_LEN: u32 = 8;

/// Bytes that are read from the flash and sent to the FPGA at a time.
pub const BUFFER_SIZE: usize = 1024;

/// How often the FPGA is asked whether it is ready, a millisecond apart.
pub const READY_ATTEMPTS: u32 = 100;

/// The head of the bitstream.
#[derive(Clone, Copy, Debug, PartialEq, Eq, Structural)]
pub struct BitstreamHeader {
    pub magic: u32,
    pub size: u32,
}

/// Where the bitstream lies in the flash.
#[derive(Clone, Copy, Debug, PartialEq, Eq, Structural)]
pub struct BitstreamMetadata {
    pub offset: u32,
    pub size: u32,
}

impl BitstreamMetadata {
    /// Where the bitstream lies, by its head: right behind the head.
    /// `None` where the head does not start with the magic number.
    pub fn from_flash(header: &BitstreamHeader) -> (r: Option<BitstreamMetadata>)
        ensures
            r == if header.magic == BITSTREAM_MAGIC {
                Some(
                    BitstreamMetadata {
                        offset: (BITSTREAM_HEADER_OFFSET + BITSTREAM_HEADER_LEN) as u32,
                        size: header.size,
                    },
                )
            } else {
                None
            },
    {
        if header.magic == BITSTREAM_MAGIC {
            Some(
                BitstreamMetadata {
                    offset: BITSTREAM_HEADER_OFFSET + BITSTREAM_HEADER_LEN,
                    size: header.size,
                },
            )
        } else {
            None
        }
    }

    /// Chunks that it takes to send the bitstream.
    pub open spec fn chunk_count(self) -> int {
        (self.size + BUFFER_SIZE - 1) / (BUFFER_SIZE as int)
    }

    /// Chunk `index` of the bitstream: its place in the flash and its
    /// length. Every chunk but the last is a full buffer.
    pub fn upload_bitstream(&self, index: u32) -> (chunk: Option<(u32, usize)>)
        requires
            self.offset + self.size <= u32::MAX,
        ensures
            index >= self.chunk_count() ==> chunk is None,
            index < self.chunk_count() ==> chunk == Some(
                (
                    (self.offset + index * BUFFER_SIZE) as u32,
                    if self.size - index * BUFFER_SIZE < BUFFER_SIZE {
                        (self.size - index * BUFFER_SIZE) as usize
                    } else {
                        BUFFER_SIZE
                    },
                ),
            ),
    {
        let start: u64 = (index as u64) * 1024;
        if start >= self.size as u64 {
            return None;
        }
        let left: u64 = self.size as u64 - start;
        let len: usize = if left < 1024 {
            left as usize
        } else {
            BUFFER_SIZE
        };
        Some(((self.offset as u64 + start) as u32, len))
    }
}

/// Whether to ask the FPGA again after `attempts` answers of "not ready".
pub fn wait_ready(attempts: u32) -> (again: bool)
    ensures
        again == (attempts < READY_ATTEMPTS),
{
    attempts < READY_ATTEMPTS
}

} // verus!
