//! The panel that takes four 4-bit pixels in every 16-bit word.

pub mod framebuffer;
pub mod lcd;

pub use framebuffer::Framebuffer;
