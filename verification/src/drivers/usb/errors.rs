//! What can go wrong on the USB.

use vstd::prelude::*;

verus! {

/// The result of a USB operation.
pub type UsbResult<T> = Result<T, UsbError>;

/// A failure of the port, of the enumeration, of a transfer or of the mass
/// storage class.
#[derive(Clone, Copy, Debug, PartialEq, Eq, Structural)]
pub enum UsbError {
    /// The device was unplugged.
    DeviceDisconnected,
    /// No interface of the device suits the handler.
    InterfaceNotFound,
    /// A descriptor does not say what is needed.
    InvalidDescriptor,
    /// A descriptor is longer than the room kept for it.
    DescriptorTooLarge,
    /// The device was not ready.
    Nak,
    /// The endpoint is halted.
    Stall,
    /// The data toggle was out of step.
    DataToggleError,
    /// The frame ended before the transfer did.
    FrameOverrun,
    /// The device sent more than was asked for.
    BabbleError,
    /// The channel was disabled.
    Abort,
    /// A CRC error, a timeout, a bit-stuffing error or a false end of packet.
    TransactionError,
    /// A mass storage command kept failing.
    BotRequestFailed,
    /// The disk's blocks have a size that is not supported.
    InvalidBlockSize,
}

} // verus!
