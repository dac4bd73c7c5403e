//! What the device drivers compute; the registers and pins are written
//! elsewhere.

pub mod delay;
pub mod display;
pub mod lcd;
pub mod touch_screen;
pub mod usb;
