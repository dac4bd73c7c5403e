//! The Photon Workshop file format: the sections that the printer reads.

use vstd::prelude::*;
use vstd::slice::*;
use crate::file_formats::ctb::le32_at;
use crate::drivers::usb::msc::read_le32;

verus! {

/// Bytes of the tag that opens every section.
pub const TAG_LEN: usize = 12;

/// The tag that lies in `bytes` at `at`.
pub open spec fn tag_at(bytes: Seq<u8>, at: int) -> Seq<u8> {
    bytes.subrange(at, at + TAG_LEN)
}

/// Reads the tag at `at`.
fn read_tag(bytes: &[u8], at: usize) -> (tag: [u8; 12])
    requires
        at + TAG_LEN <= bytes@.len(),
    ensures
        tag@ == tag_at(bytes@, at as int),
{
    let tag: [u8; 12] = [
        bytes[at],
        bytes[at + 1],
        bytes[at + 2],
        bytes[at + 3],
        bytes[at + 4],
        bytes[at + 5],
        bytes[at + 6],
        bytes[at + 7],
        bytes[at + 8],
        bytes[at + 9],
        bytes[at + 10],
        bytes[at + 11],
    ];
    assert(tag@ =~= tag_at(bytes@, at as int));
    tag
}

/// Reads the number at `at`, lowest byte first.
fn read_u32(bytes: &[u8], at: usize) -> (v: u32)
    requires
        at + 4 <= bytes@.len(),
    ensures
        v == le32_at(bytes@, at as int),
{
    read_le32(bytes[at], bytes[at + 1], bytes[at + 2], bytes[at + 3])
}

/// The head of the file: where its sections lie.
#[derive(Clone, Copy, Debug, PartialEq, Eq)]
pub struct Header {
    /// 'ANYCUBIC'
    pub magic: [u8; 12],
    pub version: u32,
    pub area_num: u32,
    pub config1_offset: u32,
    pub unknown: u32,
    pub preview_offset: u32,
    pub preview_end_offset: u32,
    pub layer_definition_offset: u32,
    pub config2_offset: u32,
    pub machine_offset: u32,
    pub layer_image_offset: u32,
}

impl Header {
    /// Bytes of the head.
    pub const LEN: usize = 52;

    /// Reads the head off the first bytes of a file; `None` where there
    /// are fewer than `LEN`.
    pub fn from_bytes(bytes: &[u8]) -> (r: Option<Header>)
        ensures
            r is Some <==> bytes@.len() >= Self::LEN,
            r matches Some(h) ==> {
                &&& h.magic@ == tag_at(bytes@, 0)
                &&& h.version == le32_at(bytes@, 12)
                &&& h.area_num == le32_at(bytes@, 16)
                &&& h.config1_offset == le32_at(bytes@, 20)
                &&& h.unknown == le32_at(bytes@, 24)
                &&& h.preview_offset == le32_at(bytes@, 28)
                &&& h.preview_end_offset == le32_at(bytes@, 32)
                &&& h.layer_definition_offset == le32_at(bytes@, 36)
                &&& h.config2_offset == le32_at(bytes@, 40)
                &&& h.machine_offset == le32_at(bytes@, 44)
                &&& h.layer_image_offset == le32_at(bytes@, 48)
            },
    {
        if bytes.len() < Self::LEN {
            return None;
        }
        Some(
            Header {
                magic: read_tag(bytes, 0),
                version: read_u32(bytes, 12),
                area_num: read_u32(bytes, 16),
                config1_offset: read_u32(bytes, 20),
                unknown: read_u32(bytes, 24),
                preview_offset: read_u32(bytes, 28),
                preview_end_offset: read_u32(bytes, 32),
                layer_definition_offset: read_u32(bytes, 36),
                config2_offset: read_u32(bytes, 40),
                machine_offset: read_u32(bytes, 44),
                layer_image_offset: read_u32(bytes, 48),
            },
        )
    }
}

/// The head of the preview; the picture follows at once, with two bytes
/// for each of its `resolution_x * resolution_y` pixels.
#[derive(Clone, Copy, Debug, PartialEq, Eq)]
pub struct Preview {
    /// 'PREVIEW'
    pub magic: [u8; 12],
    pub length: u32,
    pub resolution_x: u32,
    pub dpi: u32,
    pub resolution_y: u32,
}

impl Preview {
    /// Bytes of the head of the preview.
    pub const LEN: usize = 28;

    /// Reads the head of the preview; `None` where there are fewer bytes
    /// than `LEN`.
    pub fn from_bytes(bytes: &[u8]) -> (r: Option<Preview>)
        ensures
            r is Some <==> bytes@.len() >= Self::LEN,
            r matches Some(p) ==> {
                &&& p.magic@ == tag_at(bytes@, 0)
                &&& p.length == le32_at(bytes@, 12)
                &&& p.resolution_x == le32_at(bytes@, 16)
                &&& p.dpi == le32_at(bytes@, 20)
                &&& p.resolution_y == le32_at(bytes@, 24)
            },
    {
        if bytes.len() < Self::LEN {
            return None;
        }
        Some(
            Preview {
                magic: read_tag(bytes, 0),
                length: read_u32(bytes, 12),
                resolution_x: read_u32(bytes, 16),
                dpi: read_u32(bytes, 20),
                resolution_y: read_u32(bytes, 24),
            },
        )
    }

    /// Bytes of the picture that follows the head.
    pub fn body_len(&self) -> (len: u128)
        ensures
            len == self.resolution_x * self.resolution_y * 2,
    {
        assert(self.resolution_x * self.resolution_y <= 0xFFFF_FFFF * 0xFFFF_FFFF)
            by (nonlinear_arith)
            requires
                self.resolution_x <= 0xFFFF_FFFFu32,
                self.resolution_y <= 0xFFFF_FFFFu32,
        ;
        (self.resolution_x as u128) * (self.resolution_y as u128) * 2
    }
}

/// The head of the layer table; `layer_count` entries follow at once.
#[derive(Clone, Copy, Debug, PartialEq, Eq)]
pub struct LayerDefinition {
    /// 'LAYERDEF'
    pub magic: [u8; 12],
    pub length: u32,
    pub layer_count: u32,
}

impl LayerDefinition {
    /// Bytes of the head of the layer table.
    pub const LEN: usize = 20;

    /// Reads the head of the layer table; `None` where there are fewer
    /// bytes than `LEN`.
    pub fn from_bytes(bytes: &[u8]) -> (r: Option<LayerDefinition>)
        ensures
            r is Some <==> bytes@.len() >= Self::LEN,
            r matches Some(d) ==> {
                &&& d.magic@ == tag_at(bytes@, 0)
                &&& d.length == le32_at(bytes@, 12)
                &&& d.layer_count == le32_at(bytes@, 16)
            },
    {
        if bytes.len() < Self::LEN {
            return None;
        }
        Some(
            LayerDefinition {
                magic: read_tag(bytes, 0),
                length: read_u32(bytes, 12),
                layer_count: read_u32(bytes, 16),
            },
        )
    }
}

} // verus!
