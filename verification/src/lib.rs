//! Device protocol adapter layer: per-vendor protocol encoders that turn
//! normalized actuator intensities into device-specific byte sequences, and
//! the shared command-diffing engine that suppresses redundant hardware
//! writes.
//!
//! The physical transport (an asynchronous write capability) is an external
//! collaborator: every handler here computes the exact sequence of hardware
//! writes a command requires, and the caller issues them.

pub mod diff;
pub mod hardware;
pub mod intensity;
pub mod lovedistance;
pub mod patoo;
pub mod raw_protocol;
