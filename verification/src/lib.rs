//! Decision logic for keeping a television's power state in step with the
//! presence of the person using the computer it is attached to.
//!
//! Everything here works on plain values. Whatever touches the outside world
//! (spawning `adb` and `ping`, reading the display outputs, sending the wake
//! packet, listening on the session bus) is done by the caller, which feeds
//! the results back in as events and receives the next action to perform.

pub mod adb;
pub mod cli;
pub mod config;
pub mod manager;
pub mod outputs;
pub mod power;
pub mod presence;
pub mod subprocess;
pub mod text;
