//! Host channels of the USB core: how a channel is set up, how a transfer is
//! sized, what an interrupt of a channel means, and when a failed transfer
//! is tried again.

use vstd::prelude::*;
use vstd::std_specs::convert::FromSpecImpl;
use crate::drivers::usb::errors::{UsbError, UsbResult};

verus! {

/// Host channels of the core.
pub const NUM_CHANNELS: usize = 8;

/// How often a transfer that is answered with NAK is tried. NAKs are many
/// and cheap.
pub const NUM_XFER_NAK_ATTEMPTS: usize = 100_000;

/// How often a transfer that fails otherwise is tried.
pub const NUM_XFER_ATTEMPTS: usize = 5;

/// The packet count of a transfer has 10 bits.
pub const MAX_PACKET_COUNT: usize = 1023;

/// The kind of an endpoint.
#[derive(Clone, Copy, Debug, PartialEq, Eq, Structural)]
pub enum EndpointType {
    Control,
    Isoc,
    Bulk,
    Intr,
}

impl EndpointType {
    /// The number that stands for the kind on the wire and in registers.
    pub open spec fn spec_code(self) -> u8 {
        match self {
            EndpointType::Control => 0,
            EndpointType::Isoc => 1,
            EndpointType::Bulk => 2,
            EndpointType::Intr => 3,
        }
    }

    /// The number that stands for the kind on the wire and in registers.
    pub fn code(&self) -> (code: u8)
        ensures
            code == self.spec_code(),
    {
        match self {
            EndpointType::Control => 0,
            EndpointType::Isoc => 1,
            EndpointType::Bulk => 2,
            EndpointType::Intr => 3,
        }
    }
}

/// The packet identifier that a transfer starts with.
#[derive(Clone, Copy, Debug, PartialEq, Eq, Structural)]
pub enum PacketType {
    Data0,
    Data2,
    Data1,
    Setup,
}

impl PacketType {
    /// The number that stands for the identifier in registers.
    pub open spec fn spec_code(self) -> u8 {
        match self {
            PacketType::Data0 => 0,
            PacketType::Data2 => 1,
            PacketType::Data1 => 2,
            PacketType::Setup => 3,
        }
    }

    /// The number that stands for the identifier in registers.
    pub fn code(&self) -> (code: u8)
        ensures
            code == self.spec_code(),
    {
        match self {
            PacketType::Data0 => 0,
            PacketType::Data2 => 1,
            PacketType::Data1 => 2,
            PacketType::Setup => 3,
        }
    }
}

/// The way the data of a transfer goes, seen from the host.
#[derive(Clone, Copy, Debug, PartialEq, Eq, Structural)]
pub enum Direction {
    Out,
    In,
}

impl Direction {
    /// The bit that stands for the direction in an endpoint address and in
    /// a request type.
    pub open spec fn spec_code(self) -> u8 {
        match self {
            Direction::Out => 0,
            Direction::In => 0x80,
        }
    }

    /// The bit that stands for the direction in an endpoint address and in
    /// a request type.
    pub fn code(&self) -> (code: u8)
        ensures
            code == self.spec_code(),
    {
        match self {
            Direction::Out => 0,
            Direction::In => 0x80,
        }
    }
}

/// What to do about a failed transfer.
#[derive(Clone, Copy, Debug, PartialEq, Eq, Structural)]
pub enum ErrorClass {
    /// Try again, out of the large budget.
    RetryableNak,
    /// Try again, out of the small budget.
    Retryable,
    /// Give up.
    Fatal,
}

/// The class of an error: NAK is tried again many times; toggle errors,
/// frame overruns, babble and transaction errors a few times; the rest is
/// fatal.
pub open spec fn error_class(error: UsbError) -> ErrorClass {
    match error {
        UsbError::Nak => ErrorClass::RetryableNak,
        UsbError::DataToggleError
        | UsbError::FrameOverrun
        | UsbError::BabbleError
        | UsbError::TransactionError => ErrorClass::Retryable,
        _ => ErrorClass::Fatal,
    }
}

impl From<UsbError> for ErrorClass {
    fn from(v: UsbError) -> (class: ErrorClass) {
        match v {
            UsbError::Nak => ErrorClass::RetryableNak,
            UsbError::DataToggleError
            | UsbError::FrameOverrun
            | UsbError::BabbleError
            | UsbError::TransactionError => ErrorClass::Retryable,
            _ => ErrorClass::Fatal,
        }
    }
}

impl FromSpecImpl<UsbError> for ErrorClass {
    open spec fn obeys_from_spec() -> bool {
        true
    }

    open spec fn from_spec(v: UsbError) -> ErrorClass {
        error_class(v)
    }
}

/// `v / denom`, rounded up.
pub open spec fn spec_div_round_up(v: int, denom: int) -> int {
    (v + denom - 1) / denom
}

/// `v / denom`, rounded up.
pub fn div_round_up(v: usize, denom: usize) -> (q: usize)
    requires
        denom > 0,
        v + denom <= usize::MAX,
    ensures
        q == spec_div_round_up(v as int, denom as int),
{
    (v + denom - 1) / denom
}

/// The interrupts of a channel that are let through.
#[derive(Clone, Copy, Debug, PartialEq, Eq, Structural)]
pub struct InterruptMask {
    /// Transfer complete.
    pub xfrcm: bool,
    /// Acknowledged.
    pub ackm: bool,
    /// Frame overrun.
    pub frmorm: bool,
    /// Transaction error.
    pub txerrm: bool,
    /// Babble error.
    pub bberrm: bool,
    /// Stall response.
    pub stallm: bool,
    /// Data toggle error.
    pub dterrm: bool,
    /// NAK response.
    pub nakm: bool,
}

/// The interrupts to let through for an endpoint. An isochronous endpoint
/// reports completion, acknowledgement and frame overrun, and on input also
/// transaction and babble errors. Any other endpoint reports completion,
/// stall, transaction error, toggle error and NAK, and an interrupt endpoint
/// frame overrun as well; babble needs no bit of its own there, since it
/// comes with a transaction error.
pub open spec fn interrupt_mask_for(ep_type: EndpointType, ep_dir: Direction) -> InterruptMask {
    if ep_type == EndpointType::Isoc {
        InterruptMask {
            xfrcm: true,
            ackm: true,
            frmorm: true,
            txerrm: ep_dir == Direction::In,
            bberrm: ep_dir == Direction::In,
            stallm: false,
            dterrm: false,
            nakm: false,
        }
    } else {
        InterruptMask {
            xfrcm: true,
            ackm: false,
            frmorm: ep_type == EndpointType::Intr,
            txerrm: true,
            bberrm: false,
            stallm: true,
            dterrm: true,
            nakm: true,
        }
    }
}

/// The interrupt flags that a channel raised.
#[derive(Clone, Copy, Debug, PartialEq, Eq, Structural)]
pub struct ChannelInterrupts {
    /// Transfer complete.
    pub xfrc: bool,
    /// NAK response.
    pub nak: bool,
    /// Transaction error.
    pub txerr: bool,
    /// Stall response.
    pub stall: bool,
    /// Data toggle error.
    pub dterr: bool,
    /// Frame overrun.
    pub frmor: bool,
    /// Babble error.
    pub bberr: bool,
}

impl ChannelInterrupts {
    /// Whether any flag is up.
    pub open spec fn any(self) -> bool {
        self.xfrc || self.nak || self.txerr || self.stall || self.dterr || self.frmor
            || self.bberr
    }

    /// What the flags say of the transfer. Completion wins. Of several
    /// error flags the most specific one counts: babble before frame overrun
    /// before toggle error before stall before transaction error before NAK.
    pub open spec fn outcome(self) -> UsbResult<()> {
        if self.xfrc {
            Ok(())
        } else if self.bberr {
            Err(UsbError::BabbleError)
        } else if self.frmor {
            Err(UsbError::FrameOverrun)
        } else if self.dterr {
            Err(UsbError::DataToggleError)
        } else if self.stall {
            Err(UsbError::Stall)
        } else if self.txerr {
            Err(UsbError::TransactionError)
        } else {
            Err(UsbError::Nak)
        }
    }
}

/// How a transfer is programmed.
#[derive(Clone, Copy, Debug, PartialEq, Eq, Structural)]
pub struct TransferPlan {
    /// The packet identifier to start with; `None` keeps the toggle going.
    pub packet_type: Option<PacketType>,
    /// Packets of the transfer.
    pub packet_count: u16,
    /// Bytes of the transfer.
    pub transfer_size: u32,
}

/// The packets of a transfer of `size` bytes in packets of
/// `max_packet_size`: at least one, at most `MAX_PACKET_COUNT`.
pub open spec fn packet_count_for(size: int, max_packet_size: int) -> int {
    let count = spec_div_round_up(size, max_packet_size);
    if count < 1 {
        1
    } else if count > MAX_PACKET_COUNT {
        MAX_PACKET_COUNT as int
    } else {
        count
    }
}

/// The bytes to program for a transfer: on input a whole number of packets,
/// as the core demands, on output the bytes at hand.
pub open spec fn transfer_size_for(size: int, max_packet_size: int, dir: Direction) -> int {
    if dir == Direction::In {
        packet_count_for(size, max_packet_size) * max_packet_size
    } else {
        size
    }
}

/// What to do with data that has arrived in the receive FIFO.
#[derive(Clone, Copy, Debug, PartialEq, Eq, Structural)]
pub enum RxAction {
    /// Nothing has arrived.
    Nothing,
    /// More has arrived than the buffer holds: drop `words` words from the
    /// FIFO, disable the channel, report babble.
    Overflow { words: usize },
    /// Move `len` bytes from the FIFO to the buffer; re-enable the channel
    /// if `more_expected`.
    Store { len: usize, more_expected: bool },
}

/// What to do with `len` bytes that have arrived while `room` bytes of the
/// buffer are still free.
pub open spec fn rx_action_for(len: int, room: int) -> RxAction {
    if len == 0 {
        RxAction::Nothing
    } else if len > room {
        RxAction::Overflow { words: ((len + 3) / 4) as usize }
    } else {
        RxAction::Store { len: len as usize, more_expected: room - len > 0 }
    }
}

/// Decides what to do with `len` bytes that have arrived while `room` bytes
/// of the buffer are still free.
pub fn on_data_rx(len: usize, room: usize) -> (action: RxAction)
    requires
        len + 3 <= usize::MAX,
    ensures
        action == rx_action_for(len as int, room as int),
{
    if len == 0 {
        RxAction::Nothing
    } else if len > room {
        RxAction::Overflow { words: (len + 3) / 4 }
    } else {
        RxAction::Store { len, more_expected: room - len > 0 }
    }
}

/// Reads the outcome of a transfer off the flags that the channel raised.
pub fn on_ch_interrupt(flags: ChannelInterrupts) -> (result: UsbResult<()>)
    requires
        flags.any(),
    ensures
        result == flags.outcome(),
{
    if flags.xfrc {
        Ok(())
    } else {
        let mut err: UsbError = UsbError::Nak;
        if flags.txerr {
            err = UsbError::TransactionError;
        }
        if flags.stall {
            err = UsbError::Stall;
        }
        if flags.dterr {
            err = UsbError::DataToggleError;
        }
        if flags.frmor {
            err = UsbError::FrameOverrun;
        }
        if flags.bberr {
            err = UsbError::BabbleError;
        }
        Err(err)
    }
}

/// Whether bit `i` of `mask` is set.
pub open spec fn bit_set(mask: u16, i: int) -> bool {
    0 <= i < 16 && (mask >> (i as u16)) & 1 == 1
}

/// The channels whose bit is set in `mask`, lowest first: the order in
/// which pending channels are served.
pub fn pending_channels(mask: u16) -> (channels: Vec<u8>)
    ensures
        forall|k: int| 0 <= k < channels@.len() ==> bit_set(mask, #[trigger] channels@[k] as int),
        forall|i: int| bit_set(mask, i) ==> channels@.contains(i as u8),
        forall|j: int, k: int|
            0 <= j < k < channels@.len() ==> (#[trigger] channels@[j]) < (#[trigger] channels@[k]),
{
    let mut channels: Vec<u8> = Vec::new();
    let mut i: u8 = 0;
    while i < 16
        invariant
            i <= 16,
            forall|k: int|
                0 <= k < channels@.len() ==> bit_set(mask, #[trigger] channels@[k] as int)
                    && channels@[k] < i,
            forall|b: int| bit_set(mask, b) && b < i ==> channels@.contains(b as u8),
            forall|j: int, k: int|
                0 <= j < k < channels@.len() ==> (#[trigger] channels@[j]) < (
                #[trigger] channels@[k]),
        decreases 16 - i,
    {
        if (mask >> (i as u16)) & 1 == 1 {
            let ghost before = channels@;
            channels.push(i);
            assert(channels@[before.len() as int] == i);
            assert forall|b: int| bit_set(mask, b) && b < i + 1 implies channels@.contains(
                b as u8,
            ) by {
                if b < i {
                    assert(before.contains(b as u8));
                    let idx = choose|idx: int| 0 <= idx < before.len() && before[idx] == b as u8;
                    assert(channels@[idx] == b as u8);
                } else {
                    assert(channels@[before.len() as int] == b as u8);
                }
            }
        }
        i = i + 1;
    }
    channels
}

/// A host channel and the endpoint it talks to.
#[derive(Clone, Copy, Debug, PartialEq, Eq, Structural)]
pub struct Channel {
    /// The channel's number, below `NUM_CHANNELS`.
    pub ch_index: u8,
    /// Address of the device.
    pub dev_addr: u8,
    /// Direction of the endpoint.
    pub ep_dir: Direction,
    /// Number of the endpoint.
    pub ep_number: u8,
    /// Kind of the endpoint.
    pub ep_type: EndpointType,
    /// Largest packet of the endpoint; 0 before the device has said.
    pub max_packet_size: u16,
}

/// A channel together with the packet identifier to use on it.
#[derive(Clone, Copy, Debug, PartialEq, Eq, Structural)]
pub struct ChannelAccessor {
    /// The channel.
    pub channel: Channel,
    /// The packet identifier to start with; `None` keeps the toggle going.
    pub packet_type: Option<PacketType>,
}

impl Channel {
    /// Channel `ch_index` set up for an endpoint of a device.
    pub fn new(
        ch_index: u8,
        dev_addr: u8,
        ep_dir: Direction,
        ep_number: u8,
        ep_type: EndpointType,
        max_packet_size: u16,
    ) -> (channel: Channel)
        requires
            ch_index < NUM_CHANNELS,
        ensures
            channel == (Channel { ch_index, dev_addr, ep_dir, ep_number, ep_type, max_packet_size }),
    {
        Channel { ch_index, dev_addr, ep_dir, ep_number, ep_type, max_packet_size }
    }

    /// The interrupts to let through for the channel.
    pub fn interrupt_mask(&self) -> (mask: InterruptMask)
        ensures
            mask == interrupt_mask_for(self.ep_type, self.ep_dir),
    {
        let input: bool = self.ep_dir == Direction::In;
        if self.ep_type == EndpointType::Isoc {
            InterruptMask {
                xfrcm: true,
                ackm: true,
                frmorm: true,
                txerrm: input,
                bberrm: input,
                stallm: false,
                dterrm: false,
                nakm: false,
            }
        } else {
            InterruptMask {
                xfrcm: true,
                ackm: false,
                frmorm: self.ep_type == EndpointType::Intr,
                txerrm: true,
                bberrm: false,
                stallm: true,
                dterrm: true,
                nakm: true,
            }
        }
    }

    /// Whether frames are counted odd from the start: only for interrupt
    /// endpoints.
    pub fn starts_on_odd_frame(&self) -> (odd: bool)
        ensures
            odd == (self.ep_type == EndpointType::Intr),
    {
        self.ep_type == EndpointType::Intr
    }

    /// The channel for a transfer that starts with `packet_type`.
    pub fn with_pid(&mut self, packet_type: PacketType) -> (accessor: ChannelAccessor)
        ensures
            accessor == (ChannelAccessor { channel: *old(self), packet_type: Some(packet_type) }),
            *final(self) == *old(self),
    {
        ChannelAccessor { channel: *self, packet_type: Some(packet_type) }
    }

    /// The channel for a transfer that keeps the data toggle going.
    pub fn with_data_toggle(&mut self) -> (accessor: ChannelAccessor)
        ensures
            accessor == (ChannelAccessor { channel: *old(self), packet_type: None }),
            *final(self) == *old(self),
    {
        ChannelAccessor { channel: *self, packet_type: None }
    }

    /// Sizes a transfer of `size` bytes in direction `dir`.
    pub fn prepare_channel_xfer(&self, packet_type: Option<PacketType>, size: usize, dir: Direction)
        -> (plan: TransferPlan)
        requires
            self.max_packet_size > 0,
            self.ep_dir == dir,
            size <= u32::MAX - 65535,
        ensures
            plan.packet_type == packet_type,
            plan.packet_count == packet_count_for(size as int, self.max_packet_size as int),
            plan.transfer_size == transfer_size_for(size as int, self.max_packet_size as int, dir),
            1 <= plan.packet_count <= MAX_PACKET_COUNT,
    {
        let max_packet_size: usize = self.max_packet_size as usize;
        let count: usize = div_round_up(size, max_packet_size);
        let pkt_cnt: usize = if count < 1 {
            1
        } else if count > MAX_PACKET_COUNT {
            MAX_PACKET_COUNT
        } else {
            count
        };
        let transfer_size: usize = if dir == Direction::In {
            assert(pkt_cnt * max_packet_size <= 1023 * 65535) by (nonlinear_arith)
                requires
                    pkt_cnt <= 1023,
                    max_packet_size <= 65535,
            ;
            pkt_cnt * max_packet_size
        } else {
            size
        };
        TransferPlan {
            packet_type,
            packet_count: pkt_cnt as u16,
            transfer_size: transfer_size as u32,
        }
    }
}

/// What to make of the result of one attempt of a transfer.
#[derive(Clone, Copy, Debug, PartialEq, Eq, Structural)]
pub enum Completion {
    /// The transfer is done.
    Done,
    /// The transfer is to be started again.
    Retry,
    /// The transfer has failed for good.
    Failed(UsbError),
}

/// The attempts that a transfer has left.
#[derive(Clone, Copy, Debug, PartialEq, Eq, Structural)]
pub struct RetryBudget {
    /// Attempts left after a NAK.
    pub nak_attempts_left: usize,
    /// Attempts left after another error that is worth a retry.
    pub attempts_left: usize,
}

impl RetryBudget {
    /// The budget of a fresh transfer.
    pub fn new() -> (budget: RetryBudget)
        ensures
            budget == (RetryBudget {
                nak_attempts_left: NUM_XFER_NAK_ATTEMPTS,
                attempts_left: NUM_XFER_ATTEMPTS,
            }),
    {
        RetryBudget { nak_attempts_left: NUM_XFER_NAK_ATTEMPTS, attempts_left: NUM_XFER_ATTEMPTS }
    }

    /// What `result` means for the transfer, and the budget afterwards.
    /// Success ends it. An error that is worth a retry takes one attempt
    /// from its budget and ends the transfer, with that error, when none is
    /// left. Any other error ends it at once.
    pub open spec fn after(self, result: UsbResult<()>) -> (Completion, RetryBudget) {
        match result {
            Ok(_) => (Completion::Done, self),
            Err(e) => match error_class(e) {
                ErrorClass::RetryableNak => if self.nak_attempts_left <= 1 {
                    (Completion::Failed(e), RetryBudget { nak_attempts_left: 0, ..self })
                } else {
                    (
                        Completion::Retry,
                        RetryBudget {
                            nak_attempts_left: (self.nak_attempts_left - 1) as usize,
                            ..self
                        },
                    )
                },
                ErrorClass::Retryable => if self.attempts_left <= 1 {
                    (Completion::Failed(e), RetryBudget { attempts_left: 0, ..self })
                } else {
                    (
                        Completion::Retry,
                        RetryBudget { attempts_left: (self.attempts_left - 1) as usize, ..self },
                    )
                },
                ErrorClass::Fatal => (Completion::Failed(e), self),
            },
        }
    }

    /// Takes in the result of one attempt.
    pub fn wait_for_completion(&mut self, result: UsbResult<()>) -> (completion: Completion)
        ensures
            (completion, *final(self)) == old(self).after(result),
    {
        match result {
            Ok(_) => Completion::Done,
            Err(e) => match ErrorClass::from(e) {
                ErrorClass::RetryableNak => {
                    if self.nak_attempts_left <= 1 {
                        self.nak_attempts_left = 0;
                        Completion::Failed(e)
                    } else {
                        self.nak_attempts_left = self.nak_attempts_left - 1;
                        Completion::Retry
                    }
                },
                ErrorClass::Retryable => {
                    if self.attempts_left <= 1 {
                        self.attempts_left = 0;
                        Completion::Failed(e)
                    } else {
                        self.attempts_left = self.attempts_left - 1;
                        Completion::Retry
                    }
                },
                ErrorClass::Fatal => Completion::Failed(e),
            },
        }
    }
}

/// Byte `k` of a FIFO word: the FIFO holds the bytes of the wire lowest
/// first.
pub open spec fn fifo_byte(word: u32, k: int) -> u8 {
    ((word >> ((8 * k) as u32)) & 0xff) as u8
}

/// The word that holds up to four bytes of the wire, lowest first; bytes
/// past the end count as zero.
pub open spec fn fifo_word(bytes: Seq<u8>, at: int) -> u32 {
    let b = |k: int|
        if at + k < bytes.len() {
            bytes[at + k] as u32
        } else {
            0u32
        };
    b(0) | (b(1) << 8) | (b(2) << 16) | (b(3) << 24)
}

/// Taking a word apart gives the bytes it was made of.
pub proof fn lemma_fifo_word_bytes(b0: u8, b1: u8, b2: u8, b3: u8)
    ensures
        ({
            let w = (b0 as u32) | ((b1 as u32) << 8) | ((b2 as u32) << 16) | ((b3 as u32) << 24);
            &&& ((w >> 0u32) & 0xff) as u8 == b0
            &&& ((w >> 8u32) & 0xff) as u8 == b1
            &&& ((w >> 16u32) & 0xff) as u8 == b2
            &&& ((w >> 24u32) & 0xff) as u8 == b3
        }),
{
    let w = (b0 as u32) | ((b1 as u32) << 8) | ((b2 as u32) << 16) | ((b3 as u32) << 24);
    assert(((w >> 0u32) & 0xff) as u8 == b0 && ((w >> 8u32) & 0xff) as u8 == b1 && ((w >> 16u32)
        & 0xff) as u8 == b2 && ((w >> 24u32) & 0xff) as u8 == b3) by (bit_vector)
        requires
            w == (b0 as u32) | ((b1 as u32) << 8) | ((b2 as u32) << 16) | ((b3 as u32) << 24),
    ;
}

/// What is written to the FIFO is what is read from it: byte `i` of the
/// words made of `bytes` is byte `i` of `bytes`.
pub proof fn law_fifo_round_trip(bytes: Seq<u8>, i: int)
    requires
        0 <= i < bytes.len(),
    ensures
        fifo_byte(fifo_word(bytes, 4 * (i / 4)), i % 4) == bytes[i],
{
    let at = 4 * (i / 4);
    let k = i % 4;
    let b0: u8 = bytes[at];
    let b1: u8 = if at + 1 < bytes.len() {
        bytes[at + 1]
    } else {
        0u8
    };
    let b2: u8 = if at + 2 < bytes.len() {
        bytes[at + 2]
    } else {
        0u8
    };
    let b3: u8 = if at + 3 < bytes.len() {
        bytes[at + 3]
    } else {
        0u8
    };
    let w = fifo_word(bytes, at);
    assert(w == (b0 as u32) | ((b1 as u32) << 8) | ((b2 as u32) << 16) | ((b3 as u32) << 24));
    lemma_fifo_word_bytes(b0, b1, b2, b3);
    if k == 0 {
        assert(((8 * k) as u32) == 0u32);
    } else if k == 1 {
        assert(((8 * k) as u32) == 8u32);
    } else if k == 2 {
        assert(((8 * k) as u32) == 16u32);
    } else {
        assert(((8 * k) as u32) == 24u32);
    }
}

/// The first `len` bytes of the words read from the receive FIFO.
pub fn read_from_fifo(words: &Vec<u32>, len: usize) -> (bytes: Vec<u8>)
    requires
        len <= words@.len() * 4,
    ensures
        bytes@.len() == len,
        forall|i: int| 0 <= i < len ==> #[trigger] bytes@[i] == fifo_byte(words@[i / 4], i % 4),
{
    let mut bytes: Vec<u8> = Vec::new();
    let mut i: usize = 0;
    while i < len
        invariant
            i <= len,
            len <= words@.len() * 4,
            bytes@.len() == i,
            forall|j: int| 0 <= j < i ==> #[trigger] bytes@[j] == fifo_byte(words@[j / 4], j % 4),
        decreases len - i,
    {
        let word: u32 = words[i / 4];
        let k: u32 = (i % 4) as u32;
        let byte: u8 = ((word >> (8 * k)) & 0xff) as u8;
        bytes.push(byte);
        i = i + 1;
    }
    bytes
}

/// The words to write to the transmit FIFO for `src`; the last word is
/// filled up with zeros.
pub fn write_to_fifo(src: &Vec<u8>) -> (words: Vec<u32>)
    requires
        src@.len() + 3 <= usize::MAX,
    ensures
        words@.len() == (src@.len() + 3) / 4,
        forall|w: int| 0 <= w < words@.len() ==> #[trigger] words@[w] == fifo_word(src@, 4 * w),
{
    let mut words: Vec<u32> = Vec::new();
    let count: usize = (src.len() + 3) / 4;
    let mut w: usize = 0;
    while w < count
        invariant
            w <= count,
            src@.len() + 3 <= usize::MAX,
            count == (src@.len() + 3) / 4,
            words@.len() == w,
            forall|j: int| 0 <= j < w ==> #[trigger] words@[j] == fifo_word(src@, 4 * j),
        decreases count - w,
    {
        assert(4 * w + 3 < src@.len() + 3);
        let at: usize = 4 * w;
        let b0: u32 = src[at] as u32;
        let b1: u32 = if at + 1 < src.len() {
            src[at + 1] as u32
        } else {
            0
        };
        let b2: u32 = if at + 2 < src.len() {
            src[at + 2] as u32
        } else {
            0
        };
        let b3: u32 = if at + 3 < src.len() {
            src[at + 3] as u32
        } else {
            0
        };
        words.push(b0 | (b1 << 8) | (b2 << 16) | (b3 << 24));
        w = w + 1;
    }
    words
}

} // verus!
