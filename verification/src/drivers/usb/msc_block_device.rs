//! A USB disk as a device of 512-byte blocks.

use vstd::prelude::*;
use crate::drivers::usb::errors::{UsbError, UsbResult};
use crate::drivers::usb::msc::{swapped, Read10, ReadCapacity10Response, Write10};

verus! {

/// Bytes of a block.
pub const BLOCK_LEN: u32 = 512;

/// A disk whose capacity has been read.
#[derive(Clone, Copy, Debug, PartialEq, Eq, Structural)]
pub struct MscBlockDevice {
    /// What the disk gave as its block count.
    pub block_count: u32,
}

impl MscBlockDevice {
    /// The logical units of a disk, given the answer to the request for
    /// the highest one; a disk that does not answer has one.
    pub fn logical_units(max_lun: UsbResult<u8>) -> (units: u16)
        ensures
            units == match max_lun {
                Ok(lun) => lun + 1,
                Err(_) => 1,
            },
    {
        match max_lun {
            Ok(lun) => lun as u16 + 1,
            Err(_) => 1,
        }
    }

    /// The block device of a disk with the given capacity. Only blocks of
    /// 512 bytes are supported.
    pub fn new(capacity: &ReadCapacity10Response) -> (r: UsbResult<MscBlockDevice>)
        ensures
            swapped(capacity.block_size_msb) == BLOCK_LEN ==> r == Ok::<MscBlockDevice, UsbError>(
                MscBlockDevice { block_count: swapped(capacity.block_count_msb) },
            ),
            swapped(capacity.block_size_msb) != BLOCK_LEN ==> r == Err::<MscBlockDevice, UsbError>(
                UsbError::InvalidBlockSize,
            ),
    {
        let block_size: u32 = capacity.block_size();
        let block_count: u32 = capacity.block_count();
        if block_size == BLOCK_LEN {
            Ok(MscBlockDevice { block_count })
        } else {
            Err(UsbError::InvalidBlockSize)
        }
    }

    /// The size of the disk in bytes.
    pub fn disk_size(&self) -> (bytes: u64)
        ensures
            bytes == BLOCK_LEN * self.block_count,
    {
        (BLOCK_LEN as u64) * (self.block_count as u64)
    }

    /// The number of blocks.
    pub fn num_blocks(&self) -> (count: u32)
        ensures
            count == self.block_count,
    {
        self.block_count
    }

    /// The command that reads `blocks` blocks from `start_block_idx` on.
    pub fn read(&self, start_block_idx: u32, blocks: usize) -> (cmd: Read10)
        requires
            blocks <= u16::MAX,
        ensures
            cmd == (Read10 { lba: start_block_idx, blocks: blocks as u16 }),
    {
        Read10::new(start_block_idx, blocks as u16)
    }

    /// The command that writes `blocks` blocks from `start_block_idx` on.
    pub fn write(&self, start_block_idx: u32, blocks: usize) -> (cmd: Write10)
        requires
            blocks <= u16::MAX,
        ensures
            cmd == (Write10 { lba: start_block_idx, blocks: blocks as u16 }),
    {
        Write10::new(start_block_idx, blocks as u16)
    }
}

/// A point in time as a file system records it.
#[derive(Clone, Copy, Debug, PartialEq, Eq, Structural)]
pub struct Timestamp {
    pub year_since_1970: u8,
    pub zero_indexed_month: u8,
    pub zero_indexed_day: u8,
    pub hours: u8,
    pub minutes: u8,
    pub seconds: u8,
}

/// A clock for a machine that has none: it always shows the start of 1970.
#[derive(Clone, Copy, Debug, PartialEq, Eq, Structural)]
pub struct NullTimeSource;

impl NullTimeSource {
    /// The time: the first instant of 1970.
    pub fn get_timestamp(&self) -> (t: Timestamp)
        ensures
            t == (Timestamp {
                year_since_1970: 0,
                zero_indexed_month: 0,
                zero_indexed_day: 0,
                hours: 0,
                minutes: 0,
                seconds: 0,
            }),
    {
        Timestamp {
            year_since_1970: 0,
            zero_indexed_month: 0,
            zero_indexed_day: 0,
            hours: 0,
            minutes: 0,
            seconds: 0,
        }
    }
}

} // verus!
