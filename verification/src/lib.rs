//! Motion engine and data-format logic of a resin 3D printer's controller.
//!
//! The library holds the decisions: how the next step delay is derived, what
//! the stepper driver's pins must show, how positions evolve, which task may
//! run. Hardware access lives outside and mirrors the state kept here.

pub mod drivers;
pub mod file_formats;
pub mod ui;
pub mod util;
pub mod zaxis;
