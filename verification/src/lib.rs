//! Verified motion-control core for a two-axis actuator rig.
//!
//! Raw quadrature-encoder edges become signed step counts, step counts become
//! smoothed velocity estimates, and a PID feedback law turns those estimates
//! into bounded duty-cycle commands.  All control arithmetic is fixed-point:
//! a value of `SCALE` units stands for 1.0.

pub mod actuator;
pub mod encoder;
pub mod fixed;
pub mod motor;
pub mod motors;
pub mod pid;

pub use encoder::Encoder;
pub use fixed::SCALE;
pub use motor::Motor;
pub use motors::Motors;
pub use motors::TickCommand;
pub use pid::Pid;
