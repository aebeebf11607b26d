//! Maps raw input devices onto one canonical gamepad and encodes that gamepad
//! as a fixed-layout report.

pub mod axis;
pub mod buttons;
pub mod discovery;
pub mod event_queue;
pub mod gamepad;
pub mod normalize;
pub mod scalar;
pub mod wiimote;
pub mod x360;
