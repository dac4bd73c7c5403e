//! The masking LCD: how pixels are packed for the two kinds of panel, and
//! the test patterns.

pub mod canvas;
pub mod lcd_fpga;
pub mod mono4k;
pub mod saturn;

pub use canvas::Color8;
