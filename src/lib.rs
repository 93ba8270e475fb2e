//! Look-tracking controller for a desktop mascot: a Happy/Sad state machine
//! that eases the mascot's orientation toward the cursor, or toward randomly
//! drawn idle targets while the cursor is away.
//!
//! Angles are integers in microradians and times are integers in
//! nanoseconds, so that every step of the controller is exact. Every stored
//! yaw lies in `(-PI_URAD, PI_URAD]`, and yaw always eases the short way round.

pub mod angle;
pub mod timer;
pub mod config;
pub mod controller;
pub mod canvas;
pub mod laws;
