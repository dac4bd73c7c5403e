//! The CTB file format: header, layer table, the cipher over the layer data
//! and the run-length code of the pixels.

use vstd::prelude::*;
use vstd::slice::*;
use crate::drivers::usb::msc::{le32, read_le32};

verus! {

/// Magic number of a CTB file.
pub const CTB_MAGIC: u32 = 0x12FD0086;

/// Magic number of a CTB file, version 4.
pub const CTB_V4_MAGIC: u32 = 0x12FD0106;

/// Bytes of the header.
pub const HEADER_LEN: usize = 112;

/// Bytes of an entry of the layer table.
pub const LAYER_LEN: usize = 36;

/// What is wrong with a file.
#[derive(Clone, Copy, Debug, PartialEq, Eq, Structural)]
pub enum FileError {
    /// The file does not start with a magic number of the format.
    BadMagic,
    /// The pixel data breaks the run-length code.
    Corrupted,
}

/// The 8-bit grey of a 7-bit grey: the seven bits moved up by one, with
/// the highest of them repeated at the bottom.
pub open spec fn spec_color_7bpp_to_8bpp(color: u8) -> u8 {
    (color << 1) | (color >> 6)
}

/// Widens a 7-bit grey to eight bits.
pub fn color_7bpp_to_8bpp(color: u8) -> (out: u8)
    ensures
        out == spec_color_7bpp_to_8bpp(color),
{
    (color << 1) | (color >> 6)
}

/// A 7-bit grey keeps its place in the scale: black stays black, white
/// becomes white, and the seven bits can be read back off the top.
pub proof fn law_color_widening(color: u8)
    requires
        color < 128,
    ensures
        spec_color_7bpp_to_8bpp(color) >> 1 == color,
        color == 0 ==> spec_color_7bpp_to_8bpp(color) == 0,
        color == 127 ==> spec_color_7bpp_to_8bpp(color) == 255,
{
    assert(((color << 1) | (color >> 6)) >> 1 == color) by (bit_vector)
        requires
            color < 128,
    ;
    assert(color == 0 ==> ((color << 1) | (color >> 6)) == 0) by (bit_vector);
    assert(color == 127 ==> ((color << 1) | (color >> 6)) == 255) by (bit_vector);
}

/// `v / denom`, rounded up.
pub fn div_round_up(v: usize, denom: usize) -> (q: usize)
    requires
        denom > 0,
        v + denom <= usize::MAX,
    ensures
        q == (v + denom - 1) / (denom as int),
{
    (v + denom - 1) / denom
}

/// The parts of the header that the printer goes by. Lengths and times
/// that are fractions are not kept.
#[derive(Clone, Copy, Debug, PartialEq, Eq, Structural)]
pub struct Header {
    pub magic: u32,
    pub version: u32,
    pub num_bottom_layers: u32,
    pub resolution_x: u32,
    pub resolution_y: u32,
    pub large_preview_offset: u32,
    pub layers_offset: u32,
    pub num_layers: u32,
    pub small_preview_offset: u32,
    pub print_duration_sec: u32,
    pub image_mirrored: u32,
    pub anti_aliasing_level: u32,
    pub xor_key: u32,
}

/// The number that lies in `bytes` at `at`, lowest byte first.
pub open spec fn le32_at(bytes: Seq<u8>, at: int) -> u32 {
    le32(bytes[at], bytes[at + 1], bytes[at + 2], bytes[at + 3])
}

/// Reads the number at `at`.
fn read_le32_at(bytes: &[u8], at: usize) -> (v: u32)
    requires
        at + 4 <= bytes@.len(),
    ensures
        v == le32_at(bytes@, at as int),
{
    read_le32(bytes[at], bytes[at + 1], bytes[at + 2], bytes[at + 3])
}

impl Header {
    /// The header whose bytes are `bytes`.
    pub open spec fn spec_parse(bytes: Seq<u8>) -> Header {
        Header {
            magic: le32_at(bytes, 0),
            version: le32_at(bytes, 4),
            num_bottom_layers: le32_at(bytes, 48),
            resolution_x: le32_at(bytes, 52),
            resolution_y: le32_at(bytes, 56),
            large_preview_offset: le32_at(bytes, 60),
            layers_offset: le32_at(bytes, 64),
            num_layers: le32_at(bytes, 68),
            small_preview_offset: le32_at(bytes, 72),
            print_duration_sec: le32_at(bytes, 76),
            image_mirrored: le32_at(bytes, 80),
            anti_aliasing_level: le32_at(bytes, 92),
            xor_key: le32_at(bytes, 100),
        }
    }

    /// Reads the header off the first bytes of a file; `None` where there
    /// are fewer than `HEADER_LEN`.
    pub fn from_bytes(bytes: &[u8]) -> (r: Option<Header>)
        ensures
            r == if bytes@.len() >= HEADER_LEN {
                Some(Self::spec_parse(bytes@))
            } else {
                None
            },
    {
        if bytes.len() < HEADER_LEN {
            return None;
        }
        Some(
            Header {
                magic: read_le32_at(bytes, 0),
                version: read_le32_at(bytes, 4),
                num_bottom_layers: read_le32_at(bytes, 48),
                resolution_x: read_le32_at(bytes, 52),
                resolution_y: read_le32_at(bytes, 56),
                large_preview_offset: read_le32_at(bytes, 60),
                layers_offset: read_le32_at(bytes, 64),
                num_layers: read_le32_at(bytes, 68),
                small_preview_offset: read_le32_at(bytes, 72),
                print_duration_sec: read_le32_at(bytes, 76),
                image_mirrored: read_le32_at(bytes, 80),
                anti_aliasing_level: read_le32_at(bytes, 92),
                xor_key: read_le32_at(bytes, 100),
            },
        )
    }

    /// Whether the file is a CTB file of a known version.
    pub fn check_magic(&self) -> (r: Result<(), FileError>)
        ensures
            r is Ok <==> self.magic == CTB_MAGIC || self.magic == CTB_V4_MAGIC,
            r is Err ==> r == Err::<(), FileError>(FileError::BadMagic),
    {
        if self.magic == CTB_MAGIC || self.magic == CTB_V4_MAGIC {
            Ok(())
        } else {
            Err(FileError::BadMagic)
        }
    }

    /// Where entry `layer_index` of the layer table lies in the file;
    /// `None` where the file has no such layer or the place is beyond what
    /// an offset can say.
    pub fn layer_offset(&self, layer_index: u32) -> (offset: Option<u32>)
        ensures
            offset == if layer_index < self.num_layers && self.layers_offset + layer_index
                * LAYER_LEN <= u32::MAX {
                Some((self.layers_offset + layer_index * LAYER_LEN) as u32)
            } else {
                None
            },
    {
        if layer_index >= self.num_layers {
            return None;
        }
        let wide: u64 = (self.layers_offset as u64) + (layer_index as u64) * 36;
        if wide <= u32::MAX as u64 {
            Some(wide as u32)
        } else {
            None
        }
    }
}

/// The parts of an entry of the layer table that the printer goes by.
#[derive(Clone, Copy, Debug, PartialEq, Eq, Structural)]
pub struct Layer {
    /// Where the layer's data lies in the file.
    pub image_offset: u32,
    /// Bytes of the layer's data.
    pub image_size: u32,
    pub table_size: u32,
}

impl Layer {
    /// The entry whose bytes are `bytes`.
    pub open spec fn spec_parse(bytes: Seq<u8>) -> Layer {
        Layer {
            image_offset: le32_at(bytes, 12),
            image_size: le32_at(bytes, 16),
            table_size: le32_at(bytes, 24),
        }
    }

    /// Reads an entry of the layer table; `None` where there are fewer
    /// bytes than `LAYER_LEN`.
    pub fn from_bytes(bytes: &[u8]) -> (r: Option<Layer>)
        ensures
            r == if bytes@.len() >= LAYER_LEN {
                Some(Self::spec_parse(bytes@))
            } else {
                None
            },
    {
        if bytes.len() < LAYER_LEN {
            return None;
        }
        Some(
            Layer {
                image_offset: read_le32_at(bytes, 12),
                image_size: read_le32_at(bytes, 16),
                table_size: read_le32_at(bytes, 24),
            },
        )
    }

    /// The runs of pixels that `bytes`, the deciphered data of the layer,
    /// stand for: each with its 8-bit grey and its length.
    pub fn for_each_pixels(&self, bytes: &[u8]) -> (r: Result<Vec<(u8, u32)>, FileError>)
        ensures
            r is Ok <==> decode_runs(RleDecoder::start(), bytes@) is Some,
            r matches Ok(runs) ==> Some(runs@) == decode_runs(RleDecoder::start(), bytes@),
            r is Err ==> r == Err::<Vec<(u8, u32)>, FileError>(FileError::Corrupted),
    {
        let mut decoder = RleDecoder::new();
        let mut runs: Vec<(u8, u32)> = Vec::new();
        let mut i: usize = 0;
        proof {
            assert(bytes@.subrange(0, bytes@.len() as int) =~= bytes@);
            let all = decode_runs(decoder, bytes@);
            if all is Some {
                assert(runs@ + all.unwrap() =~= all.unwrap());
            }
        }
        while i < bytes.len()
            invariant
                i <= bytes@.len(),
                decoder.wf(),
                decode_runs(RleDecoder::start(), bytes@) == match decode_runs(
                    decoder,
                    bytes@.subrange(i as int, bytes@.len() as int),
                ) {
                    Some(rest) => Some(runs@ + rest),
                    None => None,
                },
            decreases bytes@.len() - i,
        {
            let ghost rest = bytes@.subrange(i as int, bytes@.len() as int);
            let ghost before = decoder;
            assert(rest.len() > 0 && rest[0] == bytes@[i as int]);
            assert(rest.subrange(1, rest.len() as int) =~= bytes@.subrange(
                i + 1,
                bytes@.len() as int,
            ));
            match decoder.push(bytes[i]) {
                Ok(Some(run)) => {
                    let ghost kept = runs@;
                    runs.push(run);
                    proof {
                        let tail = decode_runs(decoder, rest.subrange(1, rest.len() as int));
                        if tail is Some {
                            assert(kept + (seq![run] + tail.unwrap()) =~= runs@ + tail.unwrap());
                        }
                    }
                },
                Ok(None) => {},
                Err(e) => {
                    return Err(FileError::Corrupted);
                },
            }
            i = i + 1;
        }
        assert(bytes@.subrange(i as int, bytes@.len() as int) =~= Seq::<u8>::empty());
        if decoder.finished() {
            assert(runs@ + Seq::<(u8, u32)>::empty() =~= runs@);
            Ok(runs)
        } else {
            Err(FileError::Corrupted)
        }
    }
}

/// Where the decoder of the run-length code stands.
#[derive(Clone, Copy, Debug, PartialEq, Eq, Structural)]
pub enum RleState {
    /// Between runs.
    Between,
    /// A colour with the run flag has come; the head of the run's length
    /// comes next.
    WaitingForHeader,
    /// So many more bytes of the run's length are to come.
    WaitingForRLEByte(u8),
}

/// The decoder of the run-length code. A byte without the top bit is one
/// pixel of that 7-bit grey. A byte with the top bit opens a run of its
/// grey; the length follows in one to four bytes, highest first, the first
/// of which tells by its top bits how many follow.
#[derive(Clone, Copy, Debug, PartialEq, Eq, Structural)]
pub struct RleDecoder {
    /// The grey of the run under way, in seven bits.
    pub color: u8,
    /// The length of the run, as far as it has come.
    pub repeat: u32,
    /// Where the decoder stands.
    pub state: RleState,
}

/// What the head of a run's length says: the top bits of the length and
/// how many bytes follow; `None` for a byte that is no head.
pub open spec fn run_header(byte: u8) -> Option<(u32, u8)> {
    if byte < 0x80 {
        Some((byte as u32, 0u8))
    } else if byte < 0xC0 {
        Some(((byte - 0x80) as u32, 1u8))
    } else if byte < 0xE0 {
        Some(((byte - 0xC0) as u32, 2u8))
    } else if byte < 0xF0 {
        Some(((byte - 0xE0) as u32, 3u8))
    } else {
        None
    }
}

impl RleDecoder {
    /// The decoder before the first byte.
    pub open spec fn start() -> RleDecoder {
        RleDecoder { color: 0, repeat: 0, state: RleState::Between }
    }

    /// The length under way leaves room for the bytes that are to come.
    pub open spec fn wf(self) -> bool {
        &&& self.color < 128
        &&& self.state matches RleState::WaitingForRLEByte(n) ==> 1 <= n <= 3 && (n == 3
            ==> self.repeat < 0x20) && (n == 2 ==> self.repeat < 0x2000) && (n == 1
            ==> self.repeat < 0x20_0000)
    }

    /// The decoder after `byte` and the run that the byte completes, if
    /// any; `None` for a byte that breaks the code.
    pub open spec fn step(self, byte: u8) -> Option<(RleDecoder, Option<(u8, u32)>)> {
        match self.state {
            RleState::Between => {
                let color = byte % 128;
                if byte >= 128 {
                    Some((RleDecoder { color, state: RleState::WaitingForHeader, ..self }, None))
                } else {
                    Some(
                        (
                            RleDecoder { color, ..self },
                            Some((spec_color_7bpp_to_8bpp(color), 1u32)),
                        ),
                    )
                }
            },
            RleState::WaitingForHeader => match run_header(byte) {
                None => None,
                Some((repeat, more)) => if more == 0 {
                    Some(
                        (
                            RleDecoder { repeat, state: RleState::Between, ..self },
                            Some((spec_color_7bpp_to_8bpp(self.color), repeat)),
                        ),
                    )
                } else {
                    Some(
                        (
                            RleDecoder {
                                repeat,
                                state: RleState::WaitingForRLEByte(more),
                                ..self
                            },
                            None,
                        ),
                    )
                },
            },
            RleState::WaitingForRLEByte(n) => {
                let repeat = (self.repeat * 256 + byte) as u32;
                if n <= 1 {
                    Some(
                        (
                            RleDecoder { repeat, state: RleState::Between, ..self },
                            Some((spec_color_7bpp_to_8bpp(self.color), repeat)),
                        ),
                    )
                } else {
                    Some(
                        (
                            RleDecoder {
                                repeat,
                                state: RleState::WaitingForRLEByte((n - 1) as u8),
                                ..self
                            },
                            None,
                        ),
                    )
                }
            },
        }
    }

    /// A decoder at the start of the data.
    pub fn new() -> (decoder: RleDecoder)
        ensures
            decoder == Self::start(),
            decoder.wf(),
    {
        RleDecoder { color: 0, repeat: 0, state: RleState::Between }
    }

    /// Takes in one byte. Returns the run that it completes, if any, and
    /// an error for a byte that breaks the code.
    pub fn push(&mut self, byte: u8) -> (r: Result<Option<(u8, u32)>, FileError>)
        requires
            old(self).wf(),
        ensures
            r is Ok <==> old(self).step(byte) is Some,
            r matches Ok(run) ==> old(self).step(byte) == Some((*final(self), run)),
            r is Err ==> r == Err::<Option<(u8, u32)>, FileError>(FileError::Corrupted)
                && *final(self) == *old(self),
            final(self).wf(),
    {
        match self.state {
            RleState::Between => {
                self.color = byte % 128;
                if byte >= 128 {
                    self.state = RleState::WaitingForHeader;
                    Ok(None)
                } else {
                    Ok(Some((color_7bpp_to_8bpp(self.color), 1)))
                }
            },
            RleState::WaitingForHeader => {
                let (repeat, more): (u32, u8) = if byte < 0x80 {
                    (byte as u32, 0)
                } else if byte < 0xC0 {
                    ((byte - 0x80) as u32, 1)
                } else if byte < 0xE0 {
                    ((byte - 0xC0) as u32, 2)
                } else if byte < 0xF0 {
                    ((byte - 0xE0) as u32, 3)
                } else {
                    return Err(FileError::Corrupted);
                };
                self.repeat = repeat;
                if more == 0 {
                    self.state = RleState::Between;
                    Ok(Some((color_7bpp_to_8bpp(self.color), repeat)))
                } else {
                    self.state = RleState::WaitingForRLEByte(more);
                    Ok(None)
                }
            },
            RleState::WaitingForRLEByte(n) => {
                let repeat: u32 = self.repeat * 256 + byte as u32;
                self.repeat = repeat;
                if n <= 1 {
                    self.state = RleState::Between;
                    Ok(Some((color_7bpp_to_8bpp(self.color), repeat)))
                } else {
                    self.state = RleState::WaitingForRLEByte(n - 1);
                    Ok(None)
                }
            },
        }
    }

    /// Whether the data may end here: no run is under way.
    pub fn finished(&self) -> (done: bool)
        ensures
            done == (self.state == RleState::Between),
    {
        match self.state {
            RleState::Between => true,
            _ => false,
        }
    }
}

/// The runs that `bytes` stand for to a decoder in state `decoder`; `None`
/// where a byte breaks the code or the bytes end within a run.
pub open spec fn decode_runs(decoder: RleDecoder, bytes: Seq<u8>) -> Option<Seq<(u8, u32)>>
    decreases bytes.len(),
{
    if bytes.len() == 0 {
        if decoder.state == RleState::Between {
            Some(Seq::<(u8, u32)>::empty())
        } else {
            None
        }
    } else {
        match decoder.step(bytes[0]) {
            None => None,
            Some((next, run)) => match decode_runs(next, bytes.subrange(1, bytes.len() as int)) {
                None => None,
                Some(rest) => match run {
                    Some(run) => Some(seq![run] + rest),
                    None => Some(rest),
                },
            },
        }
    }
}

/// The cipher over the data of a layer: a stream of key bytes that is
/// combined with the data byte by byte.
#[derive(Clone, Copy, Debug, PartialEq, Eq, Structural)]
pub struct XorEngine {
    /// By how much the key word moves on after four bytes.
    pub k1: u32,
    /// The key word; its bytes are used lowest first.
    pub k2: u32,
    /// Which byte of the key word is next.
    pub offset_mod4: u8,
}

/// `a * b` within 32 bits.
pub open spec fn mul32(a: u32, b: u32) -> u32 {
    ((a as int * b as int) % 0x1_0000_0000) as u32
}

/// `a + b` within 32 bits.
pub open spec fn add32(a: u32, b: u32) -> u32 {
    ((a as int + b as int) % 0x1_0000_0000) as u32
}

impl XorEngine {
    /// The engine at the start of layer `layer_index` of a file with key
    /// `xor_key`.
    pub open spec fn spec_new(layer_index: u32, xor_key: u32) -> XorEngine {
        let k1 = add32(mul32(xor_key, 0x2d83cdac), 0xd8a83423);
        XorEngine {
            k1,
            k2: mul32(add32(mul32(layer_index, 0x1e1530cd), 0xec3d47cd), k1),
            offset_mod4: 0,
        }
    }

    /// The key byte that is next.
    pub open spec fn key_byte(self) -> u8 {
        ((self.k2 >> ((8 * self.offset_mod4) as u32)) & 0xff) as u8
    }

    /// The engine after one byte: the next byte of the key word, and after
    /// the fourth the key word moved on by `k1`.
    pub open spec fn advanced(self) -> XorEngine {
        if self.offset_mod4 >= 3 {
            XorEngine { k2: add32(self.k1, self.k2), offset_mod4: 0, ..self }
        } else {
            XorEngine { offset_mod4: (self.offset_mod4 + 1) as u8, ..self }
        }
    }

    /// The engine after `n` bytes.
    pub open spec fn advanced_by(self, n: nat) -> XorEngine
        decreases n,
    {
        if n == 0 {
            self
        } else {
            self.advanced().advanced_by((n - 1) as nat)
        }
    }

    /// The engine at the start of a layer.
    pub fn new(layer_index: u32, xor_key: u32) -> (engine: XorEngine)
        ensures
            engine == Self::spec_new(layer_index, xor_key),
            engine.offset_mod4 < 4,
    {
        let k1: u32 = xor_key.wrapping_mul(0x2d83cdac).wrapping_add(0xd8a83423);
        let k2: u32 = (layer_index.wrapping_mul(0x1e1530cd).wrapping_add(0xec3d47cd)).wrapping_mul(
            k1,
        );
        XorEngine { k1, k2, offset_mod4: 0 }
    }

    /// Deciphers, or enciphers, `data` in place and moves the engine on by
    /// as many bytes.
    pub fn process(&mut self, data: &mut Vec<u8>)
        requires
            old(self).offset_mod4 < 4,
        ensures
            final(data)@.len() == old(data)@.len(),
            forall|i: int|
                0 <= i < old(data)@.len() ==> #[trigger] final(data)@[i] == old(data)@[i] ^ old(
                    self,
                ).advanced_by(i as nat).key_byte(),
            *final(self) == old(self).advanced_by(old(data)@.len()),
            final(self).offset_mod4 < 4,
    {
        let mut i: usize = 0;
        while i < data.len()
            invariant
                i <= data@.len(),
                data@.len() == old(data)@.len(),
                self.offset_mod4 < 4,
                *self == old(self).advanced_by(i as nat),
                forall|j: int|
                    0 <= j < i ==> #[trigger] data@[j] == old(data)@[j] ^ old(self).advanced_by(
                        j as nat,
                    ).key_byte(),
                forall|j: int| i <= j < data@.len() ==> #[trigger] data@[j] == old(data)@[j],
            decreases data@.len() - i,
        {
            let key: u8 = ((self.k2 >> (8 * self.offset_mod4 as u32)) & 0xff) as u8;
            let byte: u8 = data[i] ^ key;
            data.set(i, byte);
            proof {
                lemma_advanced_by_succ(*old(self), i as nat);
            }
            self.offset_mod4 = self.offset_mod4 + 1;
            if self.offset_mod4 == 4 {
                self.offset_mod4 = 0;
                self.k2 = self.k1.wrapping_add(self.k2);
            }
            i = i + 1;
        }
    }
}

/// Moving on by one more byte is moving on once after the others.
pub proof fn lemma_advanced_by_succ(engine: XorEngine, n: nat)
    ensures
        engine.advanced_by(n + 1) == engine.advanced_by(n).advanced(),
    decreases n,
{
    reveal_with_fuel(XorEngine::advanced_by, 2);
    if n > 0 {
        lemma_advanced_by_succ(engine.advanced(), (n - 1) as nat);
        assert(engine.advanced_by(n + 1) == engine.advanced().advanced_by(n));
        assert(engine.advanced_by(n) == engine.advanced().advanced_by((n - 1) as nat));
    }
}

/// The cipher is its own inverse: a byte that is combined twice with the
/// same key byte is the byte again. Deciphering with an engine set up as
/// the one that enciphered gives the data back.
pub proof fn law_cipher_involution(byte: u8, key: u8)
    ensures
        (byte ^ key) ^ key == byte,
{
    assert((byte ^ key) ^ key == byte) by (bit_vector);
}

} // verus!
