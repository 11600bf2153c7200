//! Control core of a line-following robot.
//!
//! The library converts raw optical sensor readings into differential motor
//! commands that keep the robot tracking a contrasting line, and recognizes
//! designated marker colors that end the run. It covers color
//! normalization and classification, a PID feedback controller, and the
//! control-loop state machine with its termination policy. The physical
//! sensor and actuator I/O stays outside, behind plain-value interfaces.

pub mod color;
pub mod pid;
pub mod sensor;
pub mod control;
