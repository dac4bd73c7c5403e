//! Reading and writing in pieces.

pub mod buf_io;
pub mod traits;

pub use buf_io::BufReader;
pub use traits::{DirectionBuffer, Seek};
