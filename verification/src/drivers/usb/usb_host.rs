//! The host port: what its interrupts mean, and what to wait for while a
//! device is brought up.

use vstd::prelude::*;
use crate::drivers::usb::errors::{UsbError, UsbResult};

verus! {

/// Words of FIFO memory in the core: 1.25 KB.
pub const FIFO_LEN: u16 = 320;

/// Words of the receive FIFO.
pub const RX_FIFO_LEN: u16 = 128;

/// Words of the transmit FIFO for control and bulk transfers.
pub const NON_PERIODIC_TX_FIFO_LEN: u16 = 96;

/// Words of the transmit FIFO for interrupt and isochronous transfers.
pub const PERIODIC_TX_FIFO_LEN: u16 = 64;

/// Milliseconds to give a device to boot once it is detected. The standard
/// asks for 200; some devices take longer.
pub const DEVICE_BOOT_MS: u64 = 300;

/// Milliseconds to hold the port in reset. The standard asks for 10 at
/// least.
pub const PORT_RESET_MS: u64 = 20;

/// How the FIFO memory is divided.
#[derive(Clone, Copy, Debug, PartialEq, Eq, Structural)]
pub struct FifoLayout {
    /// Words of the receive FIFO, which starts at 0.
    pub rx_depth: u16,
    /// Where the non-periodic transmit FIFO starts.
    pub non_periodic_start: u16,
    /// Words of the non-periodic transmit FIFO.
    pub non_periodic_depth: u16,
    /// Where the periodic transmit FIFO starts.
    pub periodic_start: u16,
    /// Words of the periodic transmit FIFO.
    pub periodic_depth: u16,
}

/// The division of the FIFO memory: the three FIFOs lie one behind the
/// other and fit the memory.
pub fn fifo_layout() -> (layout: FifoLayout)
    ensures
        layout.rx_depth == RX_FIFO_LEN,
        layout.non_periodic_start == layout.rx_depth,
        layout.non_periodic_depth == NON_PERIODIC_TX_FIFO_LEN,
        layout.periodic_start == layout.non_periodic_start + layout.non_periodic_depth,
        layout.periodic_depth == PERIODIC_TX_FIFO_LEN,
        layout.periodic_start + layout.periodic_depth <= FIFO_LEN,
{
    FifoLayout {
        rx_depth: RX_FIFO_LEN,
        non_periodic_start: RX_FIFO_LEN,
        non_periodic_depth: NON_PERIODIC_TX_FIFO_LEN,
        periodic_start: RX_FIFO_LEN + NON_PERIODIC_TX_FIFO_LEN,
        periodic_depth: PERIODIC_TX_FIFO_LEN,
    }
}

/// What happened at the port.
#[derive(Clone, Copy, Debug, PartialEq, Eq, Structural)]
pub enum Event {
    DeviceDetected,
    PortReady,
    NeedPortReset,
    Disconnected,
}

/// The speed of a port or of the host's clock.
#[derive(Clone, Copy, Debug, PartialEq, Eq, Structural)]
pub enum PortSpeed {
    Low,
    Full,
}

/// The flags of a host port interrupt.
#[derive(Clone, Copy, Debug, PartialEq, Eq, Structural)]
pub struct PortInterrupt {
    /// A device was detected.
    pub pcdet: bool,
    /// The port was enabled or disabled.
    pub penchng: bool,
    /// The port is enabled.
    pub pena: bool,
    /// The port draws too much current.
    pub poca: bool,
}

/// What a host port interrupt asks for.
#[derive(Clone, Copy, Debug, PartialEq, Eq, Structural)]
pub struct PortActions {
    /// Signal that a device was detected.
    pub device_detected: bool,
    /// The port has become ready: clear its enable flag, adapt to its
    /// speed and signal what `maybe_change_port_speed` says.
    pub port_enabled: bool,
    /// How often to signal a disconnection and to shut the channels down.
    pub disconnections: u8,
}

/// The timer ticks of one frame at a port speed: 48,000 at full speed,
/// 6,000 at low speed.
pub open spec fn frame_interval(port_speed: PortSpeed) -> u16 {
    match port_speed {
        PortSpeed::Low => 6_000,
        PortSpeed::Full => 48_000,
    }
}

/// What to do once the port is enabled at `port_speed` while the host runs
/// at `host_speed`: the frame interval to program, and whether the host
/// has to change its speed. With `reset_after_change`, as on the F1 family,
/// a change of speed is followed by a port reset; the F4 family takes the
/// new speed as it is.
pub fn maybe_change_port_speed(
    port_speed: PortSpeed,
    host_speed: PortSpeed,
    reset_after_change: bool,
) -> (r: (u16, bool, Option<Event>))
    ensures
        r.0 == frame_interval(port_speed),
        r.1 == (port_speed != host_speed),
        r.2 == if port_speed != host_speed && reset_after_change {
            Some(Event::NeedPortReset)
        } else {
            None::<Event>
        },
{
    let hfir: u16 = match port_speed {
        PortSpeed::Low => 6_000,
        PortSpeed::Full => 48_000,
    };
    let change: bool = port_speed != host_speed;
    let event: Option<Event> = if change && reset_after_change {
        Some(Event::NeedPortReset)
    } else {
        None
    };
    (hfir, change, event)
}

/// Reads a host port interrupt: a detected device is signalled; a port
/// that has changed to enabled is made ready, one that has changed to
/// disabled counts as a disconnection, and so does overcurrent.
pub fn on_host_port_interrupt(flags: PortInterrupt) -> (actions: PortActions)
    ensures
        actions.device_detected == flags.pcdet,
        actions.port_enabled == (flags.penchng && flags.pena),
        actions.disconnections == (if flags.penchng && !flags.pena {
            1int
        } else {
            0int
        }) + (if flags.poca {
            1int
        } else {
            0int
        }),
{
    let mut disconnections: u8 = 0;
    if flags.penchng && !flags.pena {
        disconnections = disconnections + 1;
    }
    if flags.poca {
        disconnections = disconnections + 1;
    }
    PortActions {
        device_detected: flags.pcdet,
        port_enabled: flags.penchng && flags.pena,
        disconnections,
    }
}

/// What to do about an event while another is waited for.
#[derive(Clone, Copy, Debug, PartialEq, Eq)]
pub enum WaitStep {
    /// The wait is over, with this result.
    Finished(UsbResult<()>),
    /// Reset the port and keep waiting.
    ResetPort,
}

/// Whether `event` can come while `wanted_event` is waited for: the event
/// itself, a disconnection, or the need for a port reset.
pub open spec fn expected_while_waiting(wanted_event: Event, event: Event) -> bool {
    event == wanted_event || event == Event::Disconnected || event == Event::NeedPortReset
}

/// Takes in an event while `wanted_event` is waited for. The wanted event
/// ends the wait; a disconnection ends it with an error; a changed port
/// speed asks for a port reset.
pub fn wait_for_event(wanted_event: Event, event: Event) -> (step: WaitStep)
    requires
        expected_while_waiting(wanted_event, event),
    ensures
        event == wanted_event ==> step == WaitStep::Finished(Ok(())),
        event != wanted_event && event == Event::Disconnected ==> step == WaitStep::Finished(
            Err(UsbError::DeviceDisconnected),
        ),
        event != wanted_event && event == Event::NeedPortReset ==> step == WaitStep::ResetPort,
{
    if event == wanted_event {
        WaitStep::Finished(Ok(()))
    } else {
        match event {
            Event::Disconnected => WaitStep::Finished(Err(UsbError::DeviceDisconnected)),
            _ => WaitStep::ResetPort,
        }
    }
}

} // verus!
