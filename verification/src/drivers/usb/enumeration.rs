//! Enumeration of a USB device: the descriptors as they come over the wire,
//! the control requests that fetch them, and the search for an interface
//! that a handler accepts.

use vstd::prelude::*;
use vstd::slice::*;
use crate::drivers::usb::channels::{Channel, Direction, EndpointType};
use crate::drivers::usb::errors::{UsbError, UsbResult};

verus! {

/// Room for all the descriptors of one configuration. A plain one takes 32
/// bytes.
pub const CONFIGURATION_DESCRIPTOR_BUFFER_SIZE: usize = 256;

/// Endpoints that are kept of one interface.
pub const MAX_INTERFACES: usize = 2;

/// The address that the device is given.
pub const DEV_ADDR: u8 = 1;

/// The 16-bit number whose bytes on the wire are `lo`, then `hi`.
pub open spec fn le16(lo: u8, hi: u8) -> u16 {
    (lo as u16 + 256 * (hi as u16)) as u16
}

/// Reads a 16-bit number off two bytes of the wire.
pub fn read_le16(lo: u8, hi: u8) -> (v: u16)
    ensures
        v == le16(lo, hi),
{
    lo as u16 + 256 * (hi as u16)
}

/// The type, the recipient and the direction of a control request, as one
/// byte.
#[derive(Clone, Copy, Debug, PartialEq, Eq, Structural)]
pub struct RequestType {
    /// The byte on the wire.
    pub bits: u8,
}

impl RequestType {
    pub const RECIPIENT_DEVICE: u8 = 0;

    pub const RECIPIENT_INTERFACE: u8 = 1;

    pub const RECIPIENT_ENDPOINT: u8 = 2;

    pub const RECIPIENT_OTHER: u8 = 3;

    pub const TYPE_STANDARD: u8 = 0;

    pub const TYPE_CLASS: u8 = 32;

    pub const TYPE_VENDOR: u8 = 64;

    pub const TYPE_RESERVED: u8 = 96;

    pub const OUT: u8 = 0;

    pub const IN: u8 = 128;

    /// A standard request to the device.
    pub const STD_DEV: u8 = 0;

    /// The request type with the given bits.
    pub fn from_bits(bits: u8) -> (t: RequestType)
        ensures
            t.bits == bits,
    {
        RequestType { bits }
    }

    /// The request type with the bits of both.
    pub fn union(self, other: RequestType) -> (t: RequestType)
        ensures
            t.bits == self.bits | other.bits,
    {
        RequestType { bits: self.bits | other.bits }
    }

    /// Whether the request asks the device for data.
    pub fn is_in(&self) -> (input: bool)
        ensures
            input == (self.bits & 0x80 != 0),
    {
        self.bits & 0x80 != 0
    }
}

/// A control request.
#[derive(Clone, Copy, Debug, PartialEq, Eq, Structural)]
pub enum Request {
    GetStatus,
    ClearFeature,
    SetFeature,
    SetAddress,
    GetDescriptor,
    SetDescriptor,
    GetConfiguration,
    SetConfiguration,
    GetInterface,
    SetInterface,
    SynchFrame,
    /// Reset of the bulk-only transport, of the mass storage class.
    BotReset,
    /// Highest logical unit, of the mass storage class.
    GetMaxLun,
}

impl Request {
    /// The number of the request on the wire.
    pub open spec fn spec_code(self) -> u8 {
        match self {
            Request::GetStatus => 0,
            Request::ClearFeature => 1,
            Request::SetFeature => 3,
            Request::SetAddress => 5,
            Request::GetDescriptor => 6,
            Request::SetDescriptor => 7,
            Request::GetConfiguration => 8,
            Request::SetConfiguration => 9,
            Request::GetInterface => 10,
            Request::SetInterface => 11,
            Request::SynchFrame => 12,
            Request::BotReset => 0xFF,
            Request::GetMaxLun => 0xFE,
        }
    }

    /// The number of the request on the wire.
    pub fn code(&self) -> (code: u8)
        ensures
            code == self.spec_code(),
    {
        match self {
            Request::GetStatus => 0,
            Request::ClearFeature => 1,
            Request::SetFeature => 3,
            Request::SetAddress => 5,
            Request::GetDescriptor => 6,
            Request::SetDescriptor => 7,
            Request::GetConfiguration => 8,
            Request::SetConfiguration => 9,
            Request::GetInterface => 10,
            Request::SetInterface => 11,
            Request::SynchFrame => 12,
            Request::BotReset => 0xFF,
            Request::GetMaxLun => 0xFE,
        }
    }
}

/// The kind of a descriptor.
#[derive(Clone, Copy, Debug, PartialEq, Eq, Structural)]
pub enum DescriptorType {
    Device,
    Configuration,
    String,
    Interface,
    Endpoint,
    DeviceQualifier,
    OtherSpeedConfiguration,
    InterfacePower,
}

impl DescriptorType {
    /// The number of the kind on the wire.
    pub open spec fn spec_code(self) -> u8 {
        match self {
            DescriptorType::Device => 1,
            DescriptorType::Configuration => 2,
            DescriptorType::String => 3,
            DescriptorType::Interface => 4,
            DescriptorType::Endpoint => 5,
            DescriptorType::DeviceQualifier => 6,
            DescriptorType::OtherSpeedConfiguration => 7,
            DescriptorType::InterfacePower => 8,
        }
    }

    /// The number of the kind on the wire.
    pub fn code(&self) -> (code: u8)
        ensures
            code == self.spec_code(),
    {
        match self {
            DescriptorType::Device => 1,
            DescriptorType::Configuration => 2,
            DescriptorType::String => 3,
            DescriptorType::Interface => 4,
            DescriptorType::Endpoint => 5,
            DescriptorType::DeviceQualifier => 6,
            DescriptorType::OtherSpeedConfiguration => 7,
            DescriptorType::InterfacePower => 8,
        }
    }
}

/// The eight bytes that open a control transfer.
#[derive(Clone, Copy, Debug, PartialEq, Eq, Structural)]
pub struct SetupPacket {
    pub request_type: RequestType,
    pub request: Request,
    pub value: u16,
    pub index: u16,
    pub length: u16,
}

impl SetupPacket {
    /// The packet on the wire: the request type, the request, then value,
    /// index and length, each lowest byte first.
    pub open spec fn wire(self) -> Seq<u8> {
        seq![
            self.request_type.bits,
            self.request.spec_code(),
            (self.value % 256) as u8,
            (self.value / 256) as u8,
            (self.index % 256) as u8,
            (self.index / 256) as u8,
            (self.length % 256) as u8,
            (self.length / 256) as u8,
        ]
    }

    /// The packet as it goes over the wire.
    pub fn to_bytes(&self) -> (bytes: [u8; 8])
        ensures
            bytes@ == self.wire(),
    {
        let bytes: [u8; 8] = [
            self.request_type.bits,
            self.request.code(),
            (self.value % 256) as u8,
            (self.value / 256) as u8,
            (self.index % 256) as u8,
            (self.index / 256) as u8,
            (self.length % 256) as u8,
            (self.length / 256) as u8,
        ];
        assert(bytes@ =~= self.wire());
        bytes
    }
}

/// A descriptor that can be read off the wire.
pub trait Descriptor: Sized {
    /// The kind of the descriptor.
    spec fn spec_type() -> DescriptorType;

    /// The bytes that the descriptor takes on the wire.
    spec fn spec_size() -> nat;

    /// The descriptor whose bytes lie in `bytes` from `at` on.
    spec fn spec_parse(bytes: Seq<u8>, at: int) -> Self;

    /// The kind of the descriptor.
    fn descriptor_type() -> (t: DescriptorType)
        ensures
            t == Self::spec_type(),
    ;

    /// The bytes that the descriptor takes on the wire.
    fn size() -> (size: usize)
        ensures
            size == Self::spec_size(),
            1 <= size <= 18,
    ;

    /// Reads the descriptor that starts at `at`; `None` where the bytes end
    /// before it does.
    fn parse(bytes: &[u8], at: usize) -> (d: Option<Self>)
        ensures
            d == if at + Self::spec_size() <= bytes@.len() {
                Some(Self::spec_parse(bytes@, at as int))
            } else {
                None
            },
    ;
}

/// The device descriptor.
#[derive(Clone, Copy, Debug, PartialEq, Eq, Structural)]
pub struct DeviceDescriptor {
    pub len: u8,
    pub descriptor_type: u8,
    pub bcd_usb: u16,
    pub device_class: u8,
    pub device_subclass: u8,
    pub device_protocol: u8,
    pub max_packet_size0: u8,
    pub vendor_id: u16,
    pub product_id: u16,
    pub bcd_device: u16,
    pub manufacturer: u8,
    pub product: u8,
    pub serial_number: u8,
    pub num_configurations: u8,
}

impl Descriptor for DeviceDescriptor {
    open spec fn spec_type() -> DescriptorType {
        DescriptorType::Device
    }

    open spec fn spec_size() -> nat {
        18
    }

    open spec fn spec_parse(bytes: Seq<u8>, at: int) -> DeviceDescriptor {
        DeviceDescriptor {
            len: bytes[at],
            descriptor_type: bytes[at + 1],
            bcd_usb: le16(bytes[at + 2], bytes[at + 3]),
            device_class: bytes[at + 4],
            device_subclass: bytes[at + 5],
            device_protocol: bytes[at + 6],
            max_packet_size0: bytes[at + 7],
            vendor_id: le16(bytes[at + 8], bytes[at + 9]),
            product_id: le16(bytes[at + 10], bytes[at + 11]),
            bcd_device: le16(bytes[at + 12], bytes[at + 13]),
            manufacturer: bytes[at + 14],
            product: bytes[at + 15],
            serial_number: bytes[at + 16],
            num_configurations: bytes[at + 17],
        }
    }

    fn descriptor_type() -> (t: DescriptorType) {
        DescriptorType::Device
    }

    fn size() -> (size: usize) {
        18
    }

    fn parse(bytes: &[u8], at: usize) -> (d: Option<DeviceDescriptor>) {
        if bytes.len() < 18 || at > bytes.len() - 18 {
            return None;
        }
        Some(
            DeviceDescriptor {
                len: bytes[at],
                descriptor_type: bytes[at + 1],
                bcd_usb: read_le16(bytes[at + 2], bytes[at + 3]),
                device_class: bytes[at + 4],
                device_subclass: bytes[at + 5],
                device_protocol: bytes[at + 6],
                max_packet_size0: bytes[at + 7],
                vendor_id: read_le16(bytes[at + 8], bytes[at + 9]),
                product_id: read_le16(bytes[at + 10], bytes[at + 11]),
                bcd_device: read_le16(bytes[at + 12], bytes[at + 13]),
                manufacturer: bytes[at + 14],
                product: bytes[at + 15],
                serial_number: bytes[at + 16],
                num_configurations: bytes[at + 17],
            },
        )
    }
}

/// The first eight bytes of the device descriptor: all that can be asked
/// for before the size of the control endpoint's packets is known.
#[derive(Clone, Copy, Debug, PartialEq, Eq, Structural)]
pub struct DeviceDescriptorPartial {
    pub max_packet_size0: u8,
}

impl Descriptor for DeviceDescriptorPartial {
    open spec fn spec_type() -> DescriptorType {
        DescriptorType::Device
    }

    open spec fn spec_size() -> nat {
        8
    }

    open spec fn spec_parse(bytes: Seq<u8>, at: int) -> DeviceDescriptorPartial {
        DeviceDescriptorPartial { max_packet_size0: bytes[at + 7] }
    }

    fn descriptor_type() -> (t: DescriptorType) {
        DescriptorType::Device
    }

    fn size() -> (size: usize) {
        8
    }

    fn parse(bytes: &[u8], at: usize) -> (d: Option<DeviceDescriptorPartial>) {
        if bytes.len() < 8 || at > bytes.len() - 8 {
            return None;
        }
        Some(DeviceDescriptorPartial { max_packet_size0: bytes[at + 7] })
    }
}

/// A configuration descriptor.
#[derive(Clone, Copy, Debug, PartialEq, Eq, Structural)]
pub struct ConfigurationDescriptor {
    pub len: u8,
    pub descriptor_type: u8,
    pub total_len: u16,
    pub num_interfaces: u8,
    pub configuration_value: u8,
    pub configuration_name: u8,
    pub attributes: u8,
    pub max_power: u8,
}

impl Descriptor for ConfigurationDescriptor {
    open spec fn spec_type() -> DescriptorType {
        DescriptorType::Configuration
    }

    open spec fn spec_size() -> nat {
        9
    }

    open spec fn spec_parse(bytes: Seq<u8>, at: int) -> ConfigurationDescriptor {
        ConfigurationDescriptor {
            len: bytes[at],
            descriptor_type: bytes[at + 1],
            total_len: le16(bytes[at + 2], bytes[at + 3]),
            num_interfaces: bytes[at + 4],
            configuration_value: bytes[at + 5],
            configuration_name: bytes[at + 6],
            attributes: bytes[at + 7],
            max_power: bytes[at + 8],
        }
    }

    fn descriptor_type() -> (t: DescriptorType) {
        DescriptorType::Configuration
    }

    fn size() -> (size: usize) {
        9
    }

    fn parse(bytes: &[u8], at: usize) -> (d: Option<ConfigurationDescriptor>) {
        if bytes.len() < 9 || at > bytes.len() - 9 {
            return None;
        }
        Some(
            ConfigurationDescriptor {
                len: bytes[at],
                descriptor_type: bytes[at + 1],
                total_len: read_le16(bytes[at + 2], bytes[at + 3]),
                num_interfaces: bytes[at + 4],
                configuration_value: bytes[at + 5],
                configuration_name: bytes[at + 6],
                attributes: bytes[at + 7],
                max_power: bytes[at + 8],
            },
        )
    }
}

/// An interface descriptor.
#[derive(Clone, Copy, Debug, PartialEq, Eq, Structural)]
pub struct InterfaceDescriptor {
    pub len: u8,
    pub descriptor_type: u8,
    pub interface_number: u8,
    pub alternate_setting: u8,
    pub num_endpoints: u8,
    pub interface_class: u8,
    pub interface_subclass: u8,
    pub interface_protocol: u8,
    pub interface_name: u8,
}

impl Descriptor for InterfaceDescriptor {
    open spec fn spec_type() -> DescriptorType {
        DescriptorType::Interface
    }

    open spec fn spec_size() -> nat {
        9
    }

    open spec fn spec_parse(bytes: Seq<u8>, at: int) -> InterfaceDescriptor {
        InterfaceDescriptor {
            len: bytes[at],
            descriptor_type: bytes[at + 1],
            interface_number: bytes[at + 2],
            alternate_setting: bytes[at + 3],
            num_endpoints: bytes[at + 4],
            interface_class: bytes[at + 5],
            interface_subclass: bytes[at + 6],
            interface_protocol: bytes[at + 7],
            interface_name: bytes[at + 8],
        }
    }

    fn descriptor_type() -> (t: DescriptorType) {
        DescriptorType::Interface
    }

    fn size() -> (size: usize) {
        9
    }

    fn parse(bytes: &[u8], at: usize) -> (d: Option<InterfaceDescriptor>) {
        if bytes.len() < 9 || at > bytes.len() - 9 {
            return None;
        }
        Some(
            InterfaceDescriptor {
                len: bytes[at],
                descriptor_type: bytes[at + 1],
                interface_number: bytes[at + 2],
                alternate_setting: bytes[at + 3],
                num_endpoints: bytes[at + 4],
                interface_class: bytes[at + 5],
                interface_subclass: bytes[at + 6],
                interface_protocol: bytes[at + 7],
                interface_name: bytes[at + 8],
            },
        )
    }
}

/// An endpoint descriptor.
#[derive(Clone, Copy, Debug, PartialEq, Eq, Structural)]
pub struct EndpointDescriptor {
    pub len: u8,
    pub descriptor_type: u8,
    pub endpoint_address: u8,
    pub attributes: u8,
    pub max_packet_size: u16,
    pub interval: u8,
}

impl Descriptor for EndpointDescriptor {
    open spec fn spec_type() -> DescriptorType {
        DescriptorType::Endpoint
    }

    open spec fn spec_size() -> nat {
        7
    }

    open spec fn spec_parse(bytes: Seq<u8>, at: int) -> EndpointDescriptor {
        EndpointDescriptor {
            len: bytes[at],
            descriptor_type: bytes[at + 1],
            endpoint_address: bytes[at + 2],
            attributes: bytes[at + 3],
            max_packet_size: le16(bytes[at + 4], bytes[at + 5]),
            interval: bytes[at + 6],
        }
    }

    fn descriptor_type() -> (t: DescriptorType) {
        DescriptorType::Endpoint
    }

    fn size() -> (size: usize) {
        7
    }

    fn parse(bytes: &[u8], at: usize) -> (d: Option<EndpointDescriptor>) {
        if bytes.len() < 7 || at > bytes.len() - 7 {
            return None;
        }
        Some(
            EndpointDescriptor {
                len: bytes[at],
                descriptor_type: bytes[at + 1],
                endpoint_address: bytes[at + 2],
                attributes: bytes[at + 3],
                max_packet_size: read_le16(bytes[at + 4], bytes[at + 5]),
                interval: bytes[at + 6],
            },
        )
    }
}

/// Takes the descriptor at `*at` off `bytes` and moves `*at` past it; fails,
/// leaving `*at`, where the bytes end before the descriptor does.
pub fn consume<T: Descriptor>(bytes: &[u8], at: &mut usize) -> (r: UsbResult<T>)
    ensures
        *old(at) + T::spec_size() <= bytes@.len() ==> r == Ok::<T, UsbError>(
            T::spec_parse(bytes@, *old(at) as int),
        ) && *final(at) == *old(at) + T::spec_size(),
        *old(at) + T::spec_size() > bytes@.len() ==> r == Err::<T, UsbError>(
            UsbError::InvalidDescriptor,
        ) && *final(at) == *old(at),
{
    let end: usize = bytes.len();
    match T::parse(bytes, *at) {
        Some(d) => {
            let size: usize = T::size();
            assert(*at + size <= end);
            *at = *at + size;
            Ok(d)
        },
        None => Err(UsbError::InvalidDescriptor),
    }
}

/// The pair of channels that carries control transfers.
#[derive(Clone, Copy, Debug, PartialEq, Eq, Structural)]
pub struct ControlPipe {
    /// The channel towards the host, channel 0.
    pub ch_in: Channel,
    /// The channel towards the device, channel 1.
    pub ch_out: Channel,
}

/// A control request as the pipe carries it out.
#[derive(Clone, Copy, Debug, PartialEq, Eq, Structural)]
pub struct ControlRequest {
    /// The setup packet; it goes out first, and on a request for data once
    /// more to close the transfer.
    pub setup: SetupPacket,
    /// Whether data is moved between the two.
    pub data_stage: bool,
}

impl ControlPipe {
    /// The control pipe of the device at `dev_addr`; it always uses the
    /// channels 0 and 1.
    pub fn new(dev_addr: u8, max_packet_size: u16) -> (pipe: ControlPipe)
        ensures
            pipe.ch_in == (Channel {
                ch_index: 0,
                dev_addr,
                ep_dir: Direction::In,
                ep_number: 0,
                ep_type: EndpointType::Control,
                max_packet_size,
            }),
            pipe.ch_out == (Channel {
                ch_index: 1,
                dev_addr,
                ep_dir: Direction::Out,
                ep_number: 0,
                ep_type: EndpointType::Control,
                max_packet_size,
            }),
    {
        let ch_in = Channel::new(
            0,
            dev_addr,
            Direction::In,
            0,
            EndpointType::Control,
            max_packet_size,
        );
        let ch_out = Channel::new(
            1,
            dev_addr,
            Direction::Out,
            0,
            EndpointType::Control,
            max_packet_size,
        );
        ControlPipe { ch_in, ch_out }
    }

    /// The request that asks the device for `length` bytes.
    pub fn request_bytes_in(
        &self,
        request_type: RequestType,
        request: Request,
        value: u16,
        index: u16,
        length: u16,
    ) -> (req: ControlRequest)
        ensures
            req.setup == (SetupPacket {
                request_type: RequestType { bits: RequestType::IN | request_type.bits },
                request,
                value,
                index,
                length,
            }),
            req.data_stage == (length != 0),
    {
        ControlRequest {
            setup: SetupPacket {
                request_type: RequestType::from_bits(RequestType::IN).union(request_type),
                request,
                value,
                index,
                length,
            },
            data_stage: length != 0,
        }
    }

    /// The request that hands the device `length` bytes.
    pub fn request_bytes_out(
        &self,
        request_type: RequestType,
        request: Request,
        value: u16,
        index: u16,
        length: u16,
    ) -> (req: ControlRequest)
        ensures
            req.setup == (SetupPacket {
                request_type: RequestType { bits: RequestType::OUT | request_type.bits },
                request,
                value,
                index,
                length,
            }),
            req.data_stage == (length != 0),
    {
        ControlRequest {
            setup: SetupPacket {
                request_type: RequestType::from_bits(RequestType::OUT).union(request_type),
                request,
                value,
                index,
                length,
            },
            data_stage: length != 0,
        }
    }

    /// The request for descriptor `index` of the kind of `T`: a standard
    /// request to the device, with the kind in the high byte of the value.
    pub fn get_descriptor<T: Descriptor>(&self, index: u16) -> (req: ControlRequest)
        ensures
            req.setup == (SetupPacket {
                request_type: RequestType { bits: RequestType::IN | RequestType::STD_DEV },
                request: Request::GetDescriptor,
                value: (T::spec_type().spec_code() * 256) as u16,
                index,
                length: T::spec_size() as u16,
            }),
            req.data_stage,
    {
        let kind: u16 = T::descriptor_type().code() as u16;
        let size: usize = T::size();
        let length: u16 = size as u16;
        let req = self.request_bytes_in(
            RequestType::from_bits(RequestType::STD_DEV),
            Request::GetDescriptor,
            kind * 256,
            index,
            length,
        );
        req
    }

    /// The request that gives the device its address.
    pub fn set_address(&self, dev_addr: u8) -> (req: ControlRequest)
        ensures
            req.setup == (SetupPacket {
                request_type: RequestType { bits: RequestType::OUT | RequestType::STD_DEV },
                request: Request::SetAddress,
                value: dev_addr as u16,
                index: 0,
                length: 0,
            }),
            !req.data_stage,
    {
        self.request_bytes_out(
            RequestType::from_bits(RequestType::STD_DEV),
            Request::SetAddress,
            dev_addr as u16,
            0,
            0,
        )
    }

    /// The request that selects a configuration.
    pub fn set_configuration(&self, configuration_value: u8) -> (req: ControlRequest)
        ensures
            req.setup == (SetupPacket {
                request_type: RequestType { bits: RequestType::OUT | RequestType::STD_DEV },
                request: Request::SetConfiguration,
                value: configuration_value as u16,
                index: 0,
                length: 0,
            }),
            !req.data_stage,
    {
        self.request_bytes_out(
            RequestType::from_bits(RequestType::STD_DEV),
            Request::SetConfiguration,
            configuration_value as u16,
            0,
            0,
        )
    }
}

/// Decides whether a device's interface can be driven, and builds the
/// driver. Implemented once for each class of device that is supported.
pub trait InterfaceHandler: Sized {
    /// What `prepare` hands to `new`.
    type PrepareOutput;

    /// What `prepare` returns.
    spec fn spec_prepare(
        dev_addr: u8,
        if_desc: InterfaceDescriptor,
        ep_descs: Seq<EndpointDescriptor>,
    ) -> UsbResult<Self::PrepareOutput>;

    /// Looks at an interface of the device at `dev_addr` and its endpoints.
    /// `Ok` where the handler accepts the interface, an error otherwise.
    fn prepare(dev_addr: u8, if_desc: &InterfaceDescriptor, ep_descs: &[EndpointDescriptor]) -> (r:
        UsbResult<Self::PrepareOutput>)
        ensures
            r == Self::spec_prepare(dev_addr, *if_desc, ep_descs@),
    ;

    /// The driver that `new` builds.
    spec fn spec_new(ctrl: ControlPipe, activate: Self::PrepareOutput) -> Self;

    /// The driver of an accepted interface: it talks to the device over
    /// `ctrl` and over what `prepare` has set up.
    fn new(ctrl: ControlPipe, activate: Self::PrepareOutput) -> (handler: Self)
        ensures
            handler == Self::spec_new(ctrl, activate),
    ;
}

#[verifier::external_type_specification]
#[verifier::external_body]
#[verifier::reject_recursive_types(T)]
pub struct ExHeaplessVec<T, const N: usize>(heapless::Vec<T, N>);

/// The endpoint descriptors that a fixed-capacity vector holds, first
/// pushed first.
pub uninterp spec fn endpoint_items(
    v: heapless::Vec<EndpointDescriptor, 2>,
) -> Seq<EndpointDescriptor>;

/// The endpoints of one interface.
pub type Endpoints = heapless::Vec<EndpointDescriptor, 2>;

/// An endpoint that did not fit is handed back.
pub type Pushed = Result<(), EndpointDescriptor>;

/// `heapless::Vec::new`: a vector that holds nothing.
#[verifier::external_body]
fn endpoints_new() -> (v: Endpoints)
    ensures
        endpoint_items(v) == Seq::<EndpointDescriptor>::empty(),
{
    heapless::Vec::new()
}

/// `heapless::Vec::push`: while the vector holds fewer items than its
/// capacity of 2 the item is appended; a full vector is left as it is and
/// the item handed back.
#[verifier::external_body]
fn endpoints_push(v: &mut Endpoints, item: EndpointDescriptor) -> (r: Pushed)
    ensures
        r is Ok <==> endpoint_items(*old(v)).len() < 2,
        r is Ok ==> endpoint_items(*final(v)) == endpoint_items(*old(v)).push(item),
        r is Err ==> endpoint_items(*final(v)) == endpoint_items(*old(v)),
        r matches Err(back) ==> back == item,
{
    v.push(item)
}

/// `heapless::Vec::as_slice`: the items of the vector, in order.
#[verifier::external_body]
fn endpoints_as_slice(v: &Endpoints) -> (s: &[EndpointDescriptor])
    ensures
        s@ == endpoint_items(*v),
{
    v.as_slice()
}

/// The `count` endpoint descriptors that lie in `bytes` from `at` on, put
/// behind `kept`, and where they end. It is an error if the bytes end
/// before the descriptors do, and if there are more than `MAX_INTERFACES`
/// of them.
pub open spec fn collect_endpoints(
    bytes: Seq<u8>,
    at: int,
    count: nat,
    kept: Seq<EndpointDescriptor>,
) -> UsbResult<(Seq<EndpointDescriptor>, int)>
    decreases count,
{
    if count == 0 {
        Ok((kept, at))
    } else if at + 7 > bytes.len() {
        Err(UsbError::InvalidDescriptor)
    } else if kept.len() >= MAX_INTERFACES {
        Err(UsbError::DescriptorTooLarge)
    } else {
        collect_endpoints(
            bytes,
            at + 7,
            (count - 1) as nat,
            kept.push(EndpointDescriptor::spec_parse(bytes, at)),
        )
    }
}

/// What the first of the next `interfaces` interfaces that the handler
/// accepts is prepared to; `None` if it accepts none of them. The
/// interfaces lie in `bytes` from `at` on, each followed by its endpoints.
pub open spec fn find_interface<H: InterfaceHandler>(
    dev_addr: u8,
    bytes: Seq<u8>,
    at: int,
    interfaces: nat,
) -> UsbResult<Option<H::PrepareOutput>>
    decreases interfaces,
{
    if interfaces == 0 {
        Ok(None)
    } else if at + 9 > bytes.len() {
        Err(UsbError::InvalidDescriptor)
    } else {
        let if_desc = InterfaceDescriptor::spec_parse(bytes, at);
        match collect_endpoints(
            bytes,
            at + 9,
            if_desc.num_endpoints as nat,
            Seq::<EndpointDescriptor>::empty(),
        ) {
            Err(e) => Err(e),
            Ok((ep_descs, next)) => match H::spec_prepare(dev_addr, if_desc, ep_descs) {
                Ok(output) => Ok(Some(output)),
                Err(_) => find_interface::<H>(dev_addr, bytes, next, (interfaces - 1) as nat),
            },
        }
    }
}

/// What the descriptors of one configuration lead to: the value that
/// selects the configuration together with what the handler prepared for
/// the first interface it accepts; `None` if it accepts none.
pub open spec fn spec_enumerate<H: InterfaceHandler>(dev_addr: u8, bytes: Seq<u8>) -> UsbResult<
    Option<(u8, H::PrepareOutput)>,
> {
    if 9 > bytes.len() {
        Err(UsbError::InvalidDescriptor)
    } else {
        let config = ConfigurationDescriptor::spec_parse(bytes, 0);
        match find_interface::<H>(dev_addr, bytes, 9, config.num_interfaces as nat) {
            Err(e) => Err(e),
            Ok(None) => Ok(None),
            Ok(Some(output)) => Ok(Some((config.configuration_value, output))),
        }
    }
}

/// The length to read for all the descriptors of a configuration, as its
/// descriptor gives it; an error where they would not fit the buffer.
pub fn full_configuration_length(config: &ConfigurationDescriptor) -> (r: UsbResult<usize>)
    ensures
        config.total_len <= CONFIGURATION_DESCRIPTOR_BUFFER_SIZE ==> r == Ok::<usize, UsbError>(
            config.total_len as usize,
        ),
        config.total_len > CONFIGURATION_DESCRIPTOR_BUFFER_SIZE ==> r == Err::<usize, UsbError>(
            UsbError::DescriptorTooLarge,
        ),
{
    if config.total_len as usize <= CONFIGURATION_DESCRIPTOR_BUFFER_SIZE {
        Ok(config.total_len as usize)
    } else {
        Err(UsbError::DescriptorTooLarge)
    }
}

/// The control pipe to go on with once the device has its address: that
/// of `DEV_ADDR`, with the packet size that the device has told.
pub fn addressed_pipe(partial: &DeviceDescriptorPartial) -> (pipe: ControlPipe)
    ensures
        pipe.ch_in.dev_addr == DEV_ADDR,
        pipe.ch_out.dev_addr == DEV_ADDR,
        pipe.ch_in.max_packet_size == partial.max_packet_size0,
        pipe.ch_out.max_packet_size == partial.max_packet_size0,
{
    ControlPipe::new(DEV_ADDR, partial.max_packet_size0 as u16)
}

/// Searches the descriptors of one configuration, as read from the device
/// at `dev_addr`, for an interface that the handler accepts. On success the
/// caller selects the configuration by the value returned and builds the
/// handler from what was prepared.
pub fn enumerate<H: InterfaceHandler>(dev_addr: u8, full_cd_buf: &[u8]) -> (r: UsbResult<
    Option<(u8, H::PrepareOutput)>,
>)
    ensures
        r == spec_enumerate::<H>(dev_addr, full_cd_buf@),
{
    let mut at: usize = 0;
    let config: ConfigurationDescriptor = match consume::<ConfigurationDescriptor>(
        full_cd_buf,
        &mut at,
    ) {
        Ok(config) => config,
        Err(e) => {
            return Err(e);
        },
    };
    let mut interfaces: u8 = config.num_interfaces;
    while interfaces > 0
        invariant
            at <= full_cd_buf@.len(),
            find_interface::<H>(dev_addr, full_cd_buf@, at as int, interfaces as nat)
                == find_interface::<H>(dev_addr, full_cd_buf@, 9, config.num_interfaces as nat),
            spec_enumerate::<H>(dev_addr, full_cd_buf@) == match find_interface::<H>(
                dev_addr,
                full_cd_buf@,
                9,
                config.num_interfaces as nat,
            ) {
                Err(e) => Err::<Option<(u8, H::PrepareOutput)>, UsbError>(e),
                Ok(None) => Ok(None),
                Ok(Some(output)) => Ok(Some((config.configuration_value, output))),
            },
        decreases interfaces,
    {
        let ghost start = at as int;
        let interface: InterfaceDescriptor = match consume::<InterfaceDescriptor>(
            full_cd_buf,
            &mut at,
        ) {
            Ok(interface) => interface,
            Err(e) => {
                return Err(e);
            },
        };
        let mut endpoints = endpoints_new();
        let mut left: u8 = interface.num_endpoints;
        while left > 0
            invariant
                at <= full_cd_buf@.len(),
                interfaces > 0,
                start + 9 <= full_cd_buf@.len(),
                interface == InterfaceDescriptor::spec_parse(full_cd_buf@, start),
                collect_endpoints(full_cd_buf@, at as int, left as nat, endpoint_items(endpoints))
                    == collect_endpoints(
                    full_cd_buf@,
                    start + 9,
                    interface.num_endpoints as nat,
                    Seq::<EndpointDescriptor>::empty(),
                ),
                find_interface::<H>(dev_addr, full_cd_buf@, start, interfaces as nat)
                    == find_interface::<H>(
                    dev_addr,
                    full_cd_buf@,
                    9,
                    config.num_interfaces as nat,
                ),
                spec_enumerate::<H>(dev_addr, full_cd_buf@) == match find_interface::<H>(
                    dev_addr,
                    full_cd_buf@,
                    9,
                    config.num_interfaces as nat,
                ) {
                    Err(e) => Err::<Option<(u8, H::PrepareOutput)>, UsbError>(e),
                    Ok(None) => Ok(None),
                    Ok(Some(output)) => Ok(Some((config.configuration_value, output))),
                },
            decreases left,
        {
            let endpoint: EndpointDescriptor = match consume::<EndpointDescriptor>(
                full_cd_buf,
                &mut at,
            ) {
                Ok(endpoint) => endpoint,
                Err(e) => {
                    return Err(e);
                },
            };
            match endpoints_push(&mut endpoints, endpoint) {
                Ok(_) => {},
                Err(_) => {
                    return Err(UsbError::DescriptorTooLarge);
                },
            }
            left = left - 1;
        }
        match H::prepare(dev_addr, &interface, endpoints_as_slice(&endpoints)) {
            Ok(output) => {
                return Ok(Some((config.configuration_value, output)));
            },
            Err(_) => {},
        }
        interfaces = interfaces - 1;
    }
    Ok(None)
}

} // verus!
