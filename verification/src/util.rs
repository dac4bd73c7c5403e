//! Helpers that are not tied to one device.

pub mod bitbang_spi;
pub mod io;
pub mod task_runner;

pub use task_runner::TaskRunner;
