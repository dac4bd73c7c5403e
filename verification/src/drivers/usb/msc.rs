//! The mass storage class over the bulk-only transport: which interface is
//! a disk, how a SCSI command is wrapped, and what the status that comes
//! back means.

use vstd::prelude::*;
use vstd::slice::*;
use crate::drivers::usb::channels::{Channel, Direction, EndpointType};
use crate::drivers::usb::enumeration::{
    ControlPipe, ControlRequest, EndpointDescriptor, InterfaceDescriptor, InterfaceHandler,
    Request, RequestType,
};
use crate::drivers::usb::errors::{UsbError, UsbResult};

verus! {

pub const USB_MSC_CLASS: u8 = 8;

pub const USB_MSC_SCSI_SUBCLASS: u8 = 6;

pub const USB_MSC_BOT_PROTOCOL: u8 = 0x50;

/// How often a command is sent before it counts as failed.
pub const NUM_ATTEMPS: usize = 100;

/// Signature of a command block wrapper; spells USBC.
pub const CBW_SIG: u32 = 0x43425355;

/// Signature of a command status wrapper; spells USBS.
pub const CSW_SIG: u32 = 0x53425355;

/// The tag that goes out with every command and comes back with its status.
pub const CBW_TAG: u32 = 0x1155AA33;

/// Bytes of a command block wrapper on the wire.
pub const CBW_LEN: usize = 31;

/// Bytes of a command status wrapper on the wire.
pub const CSW_LEN: usize = 13;

/// A disk on the USB.
#[derive(Clone, Copy, Debug, PartialEq, Eq, Structural)]
pub struct Msc {
    /// The control pipe.
    pub ctrl: ControlPipe,
    /// The bulk channel from the disk, channel 2.
    pub data_in: Channel,
    /// The bulk channel to the disk, channel 3.
    pub data_out: Channel,
}

/// Whether an endpoint address is that of an input endpoint.
pub open spec fn is_in_endpoint(address: u8) -> bool {
    address & 0x80 != 0
}

/// The bulk channels of a disk: channel 2 from the endpoint `ep_in`,
/// channel 3 to the endpoint `ep_out`.
pub open spec fn bulk_channels(dev_addr: u8, ep_in: EndpointDescriptor, ep_out: EndpointDescriptor)
    -> (Channel, Channel) {
    (
        Channel {
            ch_index: 2,
            dev_addr,
            ep_dir: Direction::In,
            ep_number: ep_in.endpoint_address & 0x0F,
            ep_type: EndpointType::Bulk,
            max_packet_size: ep_in.max_packet_size,
        },
        Channel {
            ch_index: 3,
            dev_addr,
            ep_dir: Direction::Out,
            ep_number: ep_out.endpoint_address & 0x0F,
            ep_type: EndpointType::Bulk,
            max_packet_size: ep_out.max_packet_size,
        },
    )
}

impl InterfaceHandler for Msc {
    type PrepareOutput = (Channel, Channel);

    /// An interface is a disk where its class, subclass and protocol are
    /// mass storage, SCSI and bulk-only, and it has exactly two endpoints,
    /// one in and one out in either order, both bulk.
    open spec fn spec_prepare(
        dev_addr: u8,
        if_desc: InterfaceDescriptor,
        ep_descs: Seq<EndpointDescriptor>,
    ) -> UsbResult<(Channel, Channel)> {
        if if_desc.interface_class != USB_MSC_CLASS || if_desc.interface_subclass
            != USB_MSC_SCSI_SUBCLASS || if_desc.interface_protocol != USB_MSC_BOT_PROTOCOL
            || ep_descs.len() != 2 {
            Err(UsbError::InvalidDescriptor)
        } else {
            let (ep_in, ep_out) = if is_in_endpoint(ep_descs[0].endpoint_address) {
                (ep_descs[0], ep_descs[1])
            } else {
                (ep_descs[1], ep_descs[0])
            };
            if !is_in_endpoint(ep_in.endpoint_address) || is_in_endpoint(ep_out.endpoint_address)
                || ep_in.attributes != EndpointType::Bulk.spec_code() || ep_out.attributes
                != EndpointType::Bulk.spec_code() {
                Err(UsbError::InvalidDescriptor)
            } else {
                Ok(bulk_channels(dev_addr, ep_in, ep_out))
            }
        }
    }

    fn prepare(dev_addr: u8, if_desc: &InterfaceDescriptor, ep_descs: &[EndpointDescriptor]) -> (r:
        UsbResult<(Channel, Channel)>) {
        if if_desc.interface_class != USB_MSC_CLASS {
            return Err(UsbError::InvalidDescriptor);
        }
        if if_desc.interface_subclass != USB_MSC_SCSI_SUBCLASS {
            return Err(UsbError::InvalidDescriptor);
        }
        if if_desc.interface_protocol != USB_MSC_BOT_PROTOCOL {
            return Err(UsbError::InvalidDescriptor);
        }
        if ep_descs.len() != 2 {
            return Err(UsbError::InvalidDescriptor);
        }
        // 0x80 means input
        let (ep_in_desc, ep_out_desc) = if ep_descs[0].endpoint_address & 0x80 != 0 {
            (&ep_descs[0], &ep_descs[1])
        } else {
            (&ep_descs[1], &ep_descs[0])
        };
        if ep_in_desc.endpoint_address & 0x80 == 0 {
            return Err(UsbError::InvalidDescriptor);
        }
        if ep_out_desc.endpoint_address & 0x80 != 0 {
            return Err(UsbError::InvalidDescriptor);
        }
        if ep_in_desc.attributes != EndpointType::Bulk.code() {
            return Err(UsbError::InvalidDescriptor);
        }
        if ep_out_desc.attributes != EndpointType::Bulk.code() {
            return Err(UsbError::InvalidDescriptor);
        }
        let data_in = Channel::new(
            2,
            dev_addr,
            Direction::In,
            ep_in_desc.endpoint_address & 0x0F,
            EndpointType::Bulk,
            ep_in_desc.max_packet_size,
        );
        let data_out = Channel::new(
            3,
            dev_addr,
            Direction::Out,
            ep_out_desc.endpoint_address & 0x0F,
            EndpointType::Bulk,
            ep_out_desc.max_packet_size,
        );
        Ok((data_in, data_out))
    }

    /// A disk keeps the control pipe, and the two bulk channels in the order
    /// in which `prepare` hands them out: the one from the disk first.
    open spec fn spec_new(ctrl: ControlPipe, activate: (Channel, Channel)) -> Msc {
        Msc { ctrl, data_in: activate.0, data_out: activate.1 }
    }

    fn new(ctrl: ControlPipe, activate: (Channel, Channel)) -> (msc: Msc) {
        Msc { ctrl, data_in: activate.0, data_out: activate.1 }
    }
}

impl Msc {
    /// The request for the highest logical unit of the disk: a class
    /// request to the interface that brings one byte.
    pub fn get_max_lun(&self) -> (req: ControlRequest)
        ensures
            req.setup.request == Request::GetMaxLun,
            req.setup.request_type.bits == RequestType::IN | (RequestType::TYPE_CLASS
                | RequestType::RECIPIENT_INTERFACE),
            req.setup.value == 0,
            req.setup.index == 0,
            req.setup.length == 1,
            req.data_stage,
    {
        self.ctrl.request_bytes_in(
            RequestType::from_bits(RequestType::TYPE_CLASS | RequestType::RECIPIENT_INTERFACE),
            Request::GetMaxLun,
            0,
            0,
            1,
        )
    }

    /// The request that resets the bulk-only transport: a class request to
    /// the interface without data.
    pub fn reset_bot(&self) -> (req: ControlRequest)
        ensures
            req.setup.request == Request::BotReset,
            req.setup.request_type.bits == RequestType::OUT | (RequestType::TYPE_CLASS
                | RequestType::RECIPIENT_INTERFACE),
            req.setup.value == 0,
            req.setup.index == 0,
            req.setup.length == 0,
            !req.data_stage,
    {
        self.ctrl.request_bytes_out(
            RequestType::from_bits(RequestType::TYPE_CLASS | RequestType::RECIPIENT_INTERFACE),
            Request::BotReset,
            0,
            0,
            0,
        )
    }

    /// The command that asks whether the disk is ready.
    pub fn test_unit_ready(&self) -> (cmd: TestUnitReady)
        ensures
            cmd == TestUnitReady::spec_new(),
    {
        TestUnitReady::new()
    }

    /// The command that asks for the disk's capacity.
    pub fn read_capacity10(&self) -> (cmd: ReadCapacity10)
        ensures
            cmd == ReadCapacity10::spec_new(),
    {
        ReadCapacity10::new()
    }

    /// The command that reads `num_blocks` blocks from block `lba` on.
    pub fn read10(&self, lba: u32, num_blocks: u16) -> (cmd: Read10)
        ensures
            cmd == (Read10 { lba, blocks: num_blocks }),
    {
        Read10::new(lba, num_blocks)
    }

    /// The command that writes `num_blocks` blocks from block `lba` on.
    pub fn write10(&self, lba: u32, num_blocks: u16) -> (cmd: Write10)
        ensures
            cmd == (Write10 { lba, blocks: num_blocks }),
    {
        Write10::new(lba, num_blocks)
    }
}

/// What to do after one attempt of a command.
#[derive(Clone, Copy, Debug, PartialEq, Eq, Structural)]
pub enum BotOutcome {
    /// The command has succeeded.
    Done,
    /// Wait a millisecond and send the command again.
    Retry,
    /// The command has failed too often.
    Failed,
}

/// Counts the attempts of one command.
#[derive(Clone, Copy, Debug, PartialEq, Eq, Structural)]
pub struct BotRequest {
    /// Attempts made so far.
    pub attempts: usize,
}

impl BotRequest {
    /// A command that has not been sent yet.
    pub fn new() -> (request: BotRequest)
        ensures
            request.attempts == 0,
    {
        BotRequest { attempts: 0 }
    }

    /// Takes in the status of one more attempt. A good status ends the
    /// command. Any other is worth another attempt, until `NUM_ATTEMPS`
    /// have been made.
    pub fn bot_request(&mut self, status: &CommandStatusWrapper) -> (outcome: BotOutcome)
        requires
            old(self).attempts < NUM_ATTEMPS,
        ensures
            final(self).attempts == old(self).attempts + 1,
            outcome == if status.spec_success() {
                BotOutcome::Done
            } else if old(self).attempts + 1 < NUM_ATTEMPS {
                BotOutcome::Retry
            } else {
                BotOutcome::Failed
            },
    {
        self.attempts = self.attempts + 1;
        if status.success() {
            BotOutcome::Done
        } else if self.attempts < NUM_ATTEMPS {
            BotOutcome::Retry
        } else {
            BotOutcome::Failed
        }
    }
}

/// The byte of `v` that is `k` bytes above the lowest.
pub open spec fn byte_of(v: int, k: int) -> u8 {
    if k == 0 {
        (v % 256) as u8
    } else if k == 1 {
        (v / 256 % 256) as u8
    } else if k == 2 {
        (v / 65536 % 256) as u8
    } else {
        (v / 16777216 % 256) as u8
    }
}

/// The 32-bit number whose bytes are `b0` to `b3`, lowest first.
pub open spec fn le32(b0: u8, b1: u8, b2: u8, b3: u8) -> u32 {
    (b0 as int + 256 * (b1 as int) + 65536 * (b2 as int) + 16777216 * (b3 as int)) as u32
}

/// The 32-bit number whose bytes are `b0` to `b3`, highest first.
pub open spec fn be32(b0: u8, b1: u8, b2: u8, b3: u8) -> u32 {
    le32(b3, b2, b1, b0)
}

/// Reads a 32-bit number off four bytes, lowest first.
pub fn read_le32(b0: u8, b1: u8, b2: u8, b3: u8) -> (v: u32)
    ensures
        v == le32(b0, b1, b2, b3),
{
    b0 as u32 + 256 * (b1 as u32) + 65536 * (b2 as u32) + 16777216 * (b3 as u32)
}

/// Appends the four bytes of `v`, lowest first.
fn push_le32(out: &mut Vec<u8>, v: u32)
    ensures
        final(out)@ == old(out)@ + seq![
            byte_of(v as int, 0),
            byte_of(v as int, 1),
            byte_of(v as int, 2),
            byte_of(v as int, 3),
        ],
{
    let ghost before = out@;
    out.push((v % 256) as u8);
    out.push((v / 256 % 256) as u8);
    out.push((v / 65536 % 256) as u8);
    out.push((v / 16777216 % 256) as u8);
    assert(out@ =~= before + seq![
        byte_of(v as int, 0),
        byte_of(v as int, 1),
        byte_of(v as int, 2),
        byte_of(v as int, 3),
    ]);
}

/// A SCSI command: the bytes of its command block.
pub trait ScsiCommand {
    /// The command block on the wire; at most 16 bytes.
    spec fn block(&self) -> Seq<u8>;

    /// The command block on the wire.
    fn to_bytes(&self) -> (bytes: Vec<u8>)
        ensures
            bytes@ == self.block(),
            bytes@.len() <= 16,
    ;
}

/// TEST UNIT READY, opcode 0x00.
#[derive(Clone, Copy, Debug, PartialEq, Eq, Structural)]
pub struct TestUnitReady {
    /// The opcode.
    pub opcode: u8,
}

impl TestUnitReady {
    pub open spec fn spec_new() -> TestUnitReady {
        TestUnitReady { opcode: 0x00 }
    }

    pub fn new() -> (cmd: TestUnitReady)
        ensures
            cmd == Self::spec_new(),
    {
        TestUnitReady { opcode: 0x00 }
    }
}

impl ScsiCommand for TestUnitReady {
    /// The opcode, four reserved bytes, the control byte.
    open spec fn block(&self) -> Seq<u8> {
        seq![self.opcode, 0, 0, 0, 0, 0]
    }

    fn to_bytes(&self) -> (bytes: Vec<u8>) {
        let bytes: Vec<u8> = vec![self.opcode, 0, 0, 0, 0, 0];
        assert(bytes@ =~= self.block());
        bytes
    }
}

/// READ CAPACITY(10), opcode 0x25.
#[derive(Clone, Copy, Debug, PartialEq, Eq, Structural)]
pub struct ReadCapacity10 {
    /// The opcode.
    pub opcode: u8,
}

impl ReadCapacity10 {
    pub open spec fn spec_new() -> ReadCapacity10 {
        ReadCapacity10 { opcode: 0x25 }
    }

    pub fn new() -> (cmd: ReadCapacity10)
        ensures
            cmd == Self::spec_new(),
    {
        ReadCapacity10 { opcode: 0x25 }
    }
}

impl ScsiCommand for ReadCapacity10 {
    /// The opcode and nine bytes that are zero: a reserved byte, the block
    /// address, three reserved bytes, the control byte.
    open spec fn block(&self) -> Seq<u8> {
        seq![self.opcode, 0, 0, 0, 0, 0, 0, 0, 0, 0]
    }

    fn to_bytes(&self) -> (bytes: Vec<u8>) {
        let bytes: Vec<u8> = vec![self.opcode, 0, 0, 0, 0, 0, 0, 0, 0, 0];
        assert(bytes@ =~= self.block());
        bytes
    }
}

/// The answer to READ CAPACITY(10).
#[derive(Clone, Copy, Debug, PartialEq, Eq, Structural)]
pub struct ReadCapacity10Response {
    /// The first four bytes of the answer, read as a number lowest byte
    /// first, though the disk sends the highest first.
    pub block_count_msb: u32,
    /// The last four bytes of the answer, read the same way.
    pub block_size_msb: u32,
}

/// The number whose bytes are those of `v` in reverse order.
pub open spec fn swapped(v: u32) -> u32 {
    be32(byte_of(v as int, 0), byte_of(v as int, 1), byte_of(v as int, 2), byte_of(v as int, 3))
}

/// Computes `swapped`.
pub fn swap_bytes(v: u32) -> (out: u32)
    ensures
        out == swapped(v),
{
    let b0: u8 = (v % 256) as u8;
    let b1: u8 = (v / 256 % 256) as u8;
    let b2: u8 = (v / 65536 % 256) as u8;
    let b3: u8 = (v / 16777216 % 256) as u8;
    read_le32(b3, b2, b1, b0)
}

impl ReadCapacity10Response {
    /// The answer whose eight bytes lie in `bytes`.
    pub open spec fn spec_parse(bytes: Seq<u8>) -> ReadCapacity10Response {
        ReadCapacity10Response {
            block_count_msb: le32(bytes[0], bytes[1], bytes[2], bytes[3]),
            block_size_msb: le32(bytes[4], bytes[5], bytes[6], bytes[7]),
        }
    }

    /// Reads the answer off its eight bytes; `None` where there are fewer.
    pub fn from_bytes(bytes: &[u8]) -> (r: Option<ReadCapacity10Response>)
        ensures
            r == if bytes@.len() >= 8 {
                Some(Self::spec_parse(bytes@))
            } else {
                None
            },
    {
        if bytes.len() < 8 {
            return None;
        }
        Some(
            ReadCapacity10Response {
                block_count_msb: read_le32(bytes[0], bytes[1], bytes[2], bytes[3]),
                block_size_msb: read_le32(bytes[4], bytes[5], bytes[6], bytes[7]),
            },
        )
    }

    /// The number of the last block of the disk.
    pub fn block_count(&self) -> (count: u32)
        ensures
            count == swapped(self.block_count_msb),
    {
        swap_bytes(self.block_count_msb)
    }

    /// The bytes of one block.
    pub fn block_size(&self) -> (size: u32)
        ensures
            size == swapped(self.block_size_msb),
    {
        swap_bytes(self.block_size_msb)
    }
}

/// The command block of READ(10) and of WRITE(10): the opcode, a flags
/// byte, the block address highest byte first, the group number, the block
/// count highest byte first, the control byte.
pub open spec fn transfer_block(opcode: u8, lba: u32, blocks: u16) -> Seq<u8> {
    seq![
        opcode,
        0,
        byte_of(lba as int, 3),
        byte_of(lba as int, 2),
        byte_of(lba as int, 1),
        byte_of(lba as int, 0),
        0,
        byte_of(blocks as int, 1),
        byte_of(blocks as int, 0),
        0,
    ]
}

/// Builds `transfer_block`.
fn transfer_bytes(opcode: u8, lba: u32, blocks: u16) -> (bytes: Vec<u8>)
    ensures
        bytes@ == transfer_block(opcode, lba, blocks),
{
    let bytes: Vec<u8> = vec![
        opcode,
        0,
        (lba / 16777216 % 256) as u8,
        (lba / 65536 % 256) as u8,
        (lba / 256 % 256) as u8,
        (lba % 256) as u8,
        0,
        (blocks / 256 % 256) as u8,
        (blocks % 256) as u8,
        0,
    ];
    assert(bytes@ =~= transfer_block(opcode, lba, blocks));
    bytes
}

/// READ(10), opcode 0x28.
#[derive(Clone, Copy, Debug, PartialEq, Eq, Structural)]
pub struct Read10 {
    /// The first block to read.
    pub lba: u32,
    /// How many blocks to read.
    pub blocks: u16,
}

impl Read10 {
    pub fn new(lba: u32, blocks: u16) -> (cmd: Read10)
        ensures
            cmd == (Read10 { lba, blocks }),
    {
        Read10 { lba, blocks }
    }
}

impl ScsiCommand for Read10 {
    open spec fn block(&self) -> Seq<u8> {
        transfer_block(0x28, self.lba, self.blocks)
    }

    fn to_bytes(&self) -> (bytes: Vec<u8>) {
        transfer_bytes(0x28, self.lba, self.blocks)
    }
}

/// WRITE(10), opcode 0x2A.
#[derive(Clone, Copy, Debug, PartialEq, Eq, Structural)]
pub struct Write10 {
    /// The first block to write.
    pub lba: u32,
    /// How many blocks to write.
    pub blocks: u16,
}

impl Write10 {
    pub fn new(lba: u32, blocks: u16) -> (cmd: Write10)
        ensures
            cmd == (Write10 { lba, blocks }),
    {
        Write10 { lba, blocks }
    }
}

impl ScsiCommand for Write10 {
    open spec fn block(&self) -> Seq<u8> {
        transfer_block(0x2A, self.lba, self.blocks)
    }

    fn to_bytes(&self) -> (bytes: Vec<u8>) {
        transfer_bytes(0x2A, self.lba, self.blocks)
    }
}

/// What goes out ahead of the data of a command.
pub struct CommandBlockWrapper {
    pub signature: u32,
    pub tag: u32,
    pub data_len: u32,
    /// The direction of the data.
    pub flags: u8,
    pub lun: u8,
    pub cb_len: u8,
    /// The command block.
    pub cb: Vec<u8>,
}

impl CommandBlockWrapper {
    /// The wrapper on the wire: signature, tag and data length, each lowest
    /// byte first; direction, logical unit and length of the command block;
    /// the command block, filled up with zeros to 16 bytes.
    pub open spec fn wire(self) -> Seq<u8> {
        seq![
            byte_of(self.signature as int, 0),
            byte_of(self.signature as int, 1),
            byte_of(self.signature as int, 2),
            byte_of(self.signature as int, 3),
        ] + seq![
            byte_of(self.tag as int, 0),
            byte_of(self.tag as int, 1),
            byte_of(self.tag as int, 2),
            byte_of(self.tag as int, 3),
        ] + seq![
            byte_of(self.data_len as int, 0),
            byte_of(self.data_len as int, 1),
            byte_of(self.data_len as int, 2),
            byte_of(self.data_len as int, 3),
        ] + seq![self.flags, self.lun, self.cb_len] + self.cb@ + Seq::new(
            (16 - self.cb@.len()) as nat,
            |i: int| 0u8,
        )
    }

    /// The wrapper of `payload` for a data stage of `data_len` bytes in
    /// direction `dir`, for logical unit 0.
    pub fn new<T: ScsiCommand>(dir: Direction, data_len: u32, payload: &T) -> (cbw:
        CommandBlockWrapper)
        ensures
            cbw.signature == CBW_SIG,
            cbw.tag == CBW_TAG,
            cbw.data_len == data_len,
            cbw.flags == dir.spec_code(),
            cbw.lun == 0,
            cbw.cb@ == payload.block(),
            cbw.cb_len == payload.block().len(),
    {
        let cb: Vec<u8> = payload.to_bytes();
        CommandBlockWrapper {
            signature: CBW_SIG,
            tag: CBW_TAG,
            data_len,
            flags: dir.code(),
            lun: 0,
            cb_len: cb.len() as u8,
            cb,
        }
    }

    /// The 31 bytes that go over the wire.
    pub fn to_bytes(&self) -> (bytes: Vec<u8>)
        requires
            self.cb@.len() <= 16,
        ensures
            bytes@ == self.wire(),
            bytes@.len() == CBW_LEN,
    {
        let mut bytes: Vec<u8> = Vec::new();
        push_le32(&mut bytes, self.signature);
        push_le32(&mut bytes, self.tag);
        push_le32(&mut bytes, self.data_len);
        bytes.push(self.flags);
        bytes.push(self.lun);
        bytes.push(self.cb_len);
        let ghost head = bytes@;
        assert(head =~= seq![
            byte_of(self.signature as int, 0),
            byte_of(self.signature as int, 1),
            byte_of(self.signature as int, 2),
            byte_of(self.signature as int, 3),
        ] + seq![
            byte_of(self.tag as int, 0),
            byte_of(self.tag as int, 1),
            byte_of(self.tag as int, 2),
            byte_of(self.tag as int, 3),
        ] + seq![
            byte_of(self.data_len as int, 0),
            byte_of(self.data_len as int, 1),
            byte_of(self.data_len as int, 2),
            byte_of(self.data_len as int, 3),
        ] + seq![self.flags, self.lun, self.cb_len]);
        let mut i: usize = 0;
        while i < 16
            invariant
                i <= 16,
                self.cb@.len() <= 16,
                bytes@.len() == 15 + i,
                bytes@.subrange(0, 15) == head,
                forall|j: int|
                    0 <= j < i ==> #[trigger] bytes@[15 + j] == if j < self.cb@.len() {
                        self.cb@[j]
                    } else {
                        0u8
                    },
            decreases 16 - i,
        {
            let byte: u8 = if i < self.cb.len() {
                self.cb[i]
            } else {
                0
            };
            let ghost before = bytes@;
            bytes.push(byte);
            assert(bytes@.subrange(0, 15) =~= before.subrange(0, 15));
            i = i + 1;
        }
        assert(bytes@ =~= self.wire()) by {
            let tail = self.cb@ + Seq::new((16 - self.cb@.len()) as nat, |i: int| 0u8);
            assert(self.wire() =~= head + tail);
            assert forall|j: int| 0 <= j < 31 implies bytes@[j] == (head + tail)[j] by {
                if j < 15 {
                    assert(bytes@[j] == bytes@.subrange(0, 15)[j]);
                } else {
                    assert(bytes@[15 + (j - 15)] == (head + tail)[j]);
                }
            }
        }
        bytes
    }
}

/// What comes back after the data of a command.
#[derive(Clone, Copy, Debug, PartialEq, Eq, Structural)]
pub struct CommandStatusWrapper {
    pub signature: u32,
    pub tag: u32,
    /// The bytes by which the data fell short.
    pub data_residue: u32,
    /// 0 for success, 1 for failure, 2 for a phase error.
    pub status: u8,
}

impl CommandStatusWrapper {
    /// The wrapper whose 13 bytes lie in `bytes`.
    pub open spec fn spec_parse(bytes: Seq<u8>) -> CommandStatusWrapper {
        CommandStatusWrapper {
            signature: le32(bytes[0], bytes[1], bytes[2], bytes[3]),
            tag: le32(bytes[4], bytes[5], bytes[6], bytes[7]),
            data_residue: le32(bytes[8], bytes[9], bytes[10], bytes[11]),
            status: bytes[12],
        }
    }

    /// Reads the wrapper off its 13 bytes; `None` where there are fewer.
    pub fn from_bytes(bytes: &[u8]) -> (r: Option<CommandStatusWrapper>)
        ensures
            r == if bytes@.len() >= CSW_LEN {
                Some(Self::spec_parse(bytes@))
            } else {
                None
            },
    {
        if bytes.len() < CSW_LEN {
            return None;
        }
        Some(
            CommandStatusWrapper {
                signature: read_le32(bytes[0], bytes[1], bytes[2], bytes[3]),
                tag: read_le32(bytes[4], bytes[5], bytes[6], bytes[7]),
                data_residue: read_le32(bytes[8], bytes[9], bytes[10], bytes[11]),
                status: bytes[12],
            },
        )
    }

    /// Whether the wrapper answers a command of this host.
    pub open spec fn spec_is_valid(self) -> bool {
        self.signature == CSW_SIG && self.tag == CBW_TAG
    }

    /// Whether the command has succeeded. A failure and a phase error
    /// count alike.
    pub open spec fn spec_success(self) -> bool {
        self.spec_is_valid() && self.status == 0
    }

    /// Whether the wrapper answers a command of this host: it carries the
    /// status signature and the tag that went out.
    pub fn is_valid(&self) -> (valid: bool)
        ensures
            valid == self.spec_is_valid(),
    {
        self.signature == CSW_SIG && self.tag == CBW_TAG
    }

    /// Whether the command has succeeded.
    pub fn success(&self) -> (ok: bool)
        ensures
            ok == self.spec_success(),
    {
        self.is_valid() && self.status == 0
    }
}

/// The bytes of a number that was put together from four bytes are those
/// bytes.
pub proof fn lemma_bytes_of_le32(b0: u8, b1: u8, b2: u8, b3: u8)
    ensures
        byte_of(le32(b0, b1, b2, b3) as int, 0) == b0,
        byte_of(le32(b0, b1, b2, b3) as int, 1) == b1,
        byte_of(le32(b0, b1, b2, b3) as int, 2) == b2,
        byte_of(le32(b0, b1, b2, b3) as int, 3) == b3,
{
    let v = b0 as int + 256 * (b1 as int) + 65536 * (b2 as int) + 16777216 * (b3 as int);
    assert(0 <= v < 0x1_0000_0000);
    assert(le32(b0, b1, b2, b3) as int == v);
    let q1 = b1 as int + 256 * (b2 as int) + 65536 * (b3 as int);
    let q2 = b2 as int + 256 * (b3 as int);
    assert(v == 256 * q1 + b0);
    assert(v / 256 == q1 && v % 256 == b0);
    assert(v == 65536 * q2 + (256 * (b1 as int) + b0));
    assert(v / 65536 == q2);
    assert(q1 == 256 * q2 + b1);
    assert(q1 % 256 == b1);
    assert(v == 16777216 * (b3 as int) + (65536 * (b2 as int) + 256 * (b1 as int) + b0));
    assert(v / 16777216 == b3);
    assert(q2 % 256 == b2);
}

/// A number is put together again from its four bytes.
pub proof fn lemma_le32_of_bytes(v: u32)
    ensures
        le32(byte_of(v as int, 0), byte_of(v as int, 1), byte_of(v as int, 2), byte_of(v as int, 3))
            == v,
{
    let x = v as int;
    let q1 = x / 256;
    let q2 = x / 65536;
    let q3 = x / 16777216;
    assert(x == 256 * q1 + x % 256);
    assert(q2 == q1 / 256);
    assert(q1 == 256 * q2 + q1 % 256);
    assert(q3 == q2 / 256);
    assert(q2 == 256 * q3 + q2 % 256);
    assert(0 <= q3 < 256);
    assert(q3 % 256 == q3);
    assert(x == x % 256 + 256 * (q1 % 256) + 65536 * (q2 % 256) + 16777216 * q3);
}

/// Swapping the bytes of a number twice gives the number back.
pub proof fn law_swap_involution(v: u32)
    ensures
        swapped(swapped(v)) == v,
{
    let b0 = byte_of(v as int, 0);
    let b1 = byte_of(v as int, 1);
    let b2 = byte_of(v as int, 2);
    let b3 = byte_of(v as int, 3);
    lemma_bytes_of_le32(b3, b2, b1, b0);
    lemma_le32_of_bytes(v);
}

} // verus!
