//! What a source or a sink of bytes has to offer.

use vstd::prelude::*;
use crate::drivers::usb::channels::Direction;

verus! {

/// A source of bytes that can be moved to a position.
pub trait Seek {
    /// Moves to `pos` bytes from the start.
    fn seek_from_start(&mut self, pos: u32);
}

/// The data stage of a command: room to read into, or bytes to write.
#[derive(Clone, Copy, Debug)]
pub enum DirectionBuffer<'a> {
    /// Room for so many bytes from the device.
    In(usize),
    /// Bytes for the device.
    Out(&'a [u8]),
}

impl<'a> DirectionBuffer<'a> {
    /// The bytes of the data stage.
    pub open spec fn spec_len(self) -> nat {
        match self {
            DirectionBuffer::In(room) => room as nat,
            DirectionBuffer::Out(buf) => buf@.len(),
        }
    }

    /// The bytes of the data stage.
    pub fn len(&self) -> (len: usize)
        ensures
            len == self.spec_len(),
    {
        match self {
            DirectionBuffer::In(room) => *room,
            DirectionBuffer::Out(buf) => buf.len(),
        }
    }

    /// Whether there is no data stage.
    pub fn is_empty(&self) -> (empty: bool)
        ensures
            empty == (self.spec_len() == 0),
    {
        self.len() == 0
    }

    /// The way the data goes.
    pub fn dir(&self) -> (dir: Direction)
        ensures
            dir == match self {
                DirectionBuffer::In(_) => Direction::In,
                DirectionBuffer::Out(_) => Direction::Out,
            },
    {
        match self {
            DirectionBuffer::In(_) => Direction::In,
            DirectionBuffer::Out(_) => Direction::Out,
        }
    }
}

} // verus!
