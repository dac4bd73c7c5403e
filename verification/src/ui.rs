//! What the touch screen's pages decide; drawing them is done elsewhere.

pub mod move_z;

pub use move_z::{MoveZ, Task};
