//! The panel behind an FPGA that takes run-length coded 7-bit pixels.

pub mod framebuffer;
pub mod lcd;

pub use framebuffer::Framebuffer;
