//! Z-axis motion: distances, the step-delay generator, the driver port and
//! the motion controller.

pub mod delay_math;
pub mod distance;
pub mod drv8424;
pub mod motion_control;
pub mod motion_control_async;
pub mod origin_calibration;
pub mod sensor;
pub mod step_generator;

pub use distance::Steps;
pub use drv8424::{Direction, Drv8424};
pub use motion_control::MotionControl;
pub use motion_control_async::{Event, MotionControlAsync};
pub use origin_calibration::{calibrate_origin, HomingPhase};
pub use sensor::BottomSensor;
pub use step_generator::StepGenerator;
