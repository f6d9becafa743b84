//! Drives the servo-actuated facial features of an animatronic head
//! (mouth, eyes, ears) from a game controller over a serial link.
//!
//! The library holds the verified core of the pipeline: folding controller
//! events into a canonical input snapshot, quantizing stick axes, mapping
//! input changes to discrete actuator targets, and encoding each target
//! into a fixed 16-byte command frame. Reading the controller and writing
//! the serial port are left to the surrounding program.

pub mod actuator;
pub mod controller;
pub mod frame;
pub mod input;
pub mod mapper;
pub mod state;
