//! Host-side controller for covert payload injection into a freshly launched
//! guest process of a whole-system emulator.
//!
//! The controller is an explicit state machine driven by events the emulator
//! shell reports to it: process start, hooks firing at guest addresses, and
//! guest-issued hypercalls. Each handler returns the guest-visible effects
//! (memory writes, a return-register value, a hook to install) as plain data,
//! so every decision the controller makes is verified here while the emulator
//! bindings that carry the effects out stay outside.

use vstd::prelude::*;

pub mod channels;
pub mod controller;
pub mod laws;
pub mod protocol;
pub mod section;

verus! {

/// Magic value a hypercall must carry in register 0 to be addressed to this
/// controller; anything else is passed through untouched.
pub const MAGIC: u64 = 0x10adc0d3;

} // verus!
