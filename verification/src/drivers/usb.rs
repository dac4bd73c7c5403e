//! USB host: channels, enumeration and the mass storage class.

pub mod channels;
pub mod enumeration;
pub mod errors;
pub mod msc;
pub mod msc_block_device;
pub mod usb_host;

pub use channels::{Channel, ChannelAccessor, Direction, EndpointType, PacketType};
pub use enumeration::{enumerate, ControlPipe, InterfaceHandler};
pub use errors::{UsbError, UsbResult};
pub use msc::Msc;
pub use msc_block_device::{MscBlockDevice, NullTimeSource};
