//! Reading a stretch of a source through a buffer of fixed size.

use vstd::prelude::*;

verus! {

/// Keeps count of the bytes that are still to be read of a stretch of
/// `len` bytes. The source is read elsewhere, as much at a time as
/// `next` allows.
#[derive(Clone, Copy, Debug, PartialEq, Eq, Structural)]
pub struct BufReader {
    /// Bytes still to be read.
    pub len: usize,
}

impl BufReader {
    /// A reader for a stretch of `len` bytes.
    pub fn new(len: usize) -> (reader: BufReader)
        ensures
            reader.len == len,
    {
        BufReader { len }
    }

    /// How many bytes to ask the source for, given a buffer of
    /// `buffer_len` bytes: the bytes left or the buffer's size, whichever is
    /// less; `None` once nothing is left.
    pub fn next(&self, buffer_len: usize) -> (to_read: Option<usize>)
        ensures
            self.len == 0 ==> to_read is None,
            self.len != 0 ==> to_read == Some(
                if self.len <= buffer_len {
                    self.len
                } else {
                    buffer_len
                },
            ),
    {
        if self.len == 0 {
            None
        } else if self.len <= buffer_len {
            Some(self.len)
        } else {
            Some(buffer_len)
        }
    }

    /// Takes note that the source has handed over `read` bytes.
    pub fn consumed(&mut self, read: usize)
        requires
            read <= old(self).len,
        ensures
            final(self).len == old(self).len - read,
    {
        self.len = self.len - read;
    }
}

} // verus!
