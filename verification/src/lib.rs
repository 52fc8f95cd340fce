//! Control of a managed host's power and reset keys, and sensing of its power
//! state, over GPIO lines, USB relays or a smart plug.
//!
//! The crate decides; it performs no I/O. A caller runs the commands and pulses
//! that the controller asks for and hands their outcomes back.

pub mod controller;
pub mod error;
pub mod miot;
pub mod text;
pub mod types;
