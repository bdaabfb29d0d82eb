//! A bare-metal blink driver for one GPIO pin, written as verified logic over a
//! model of the memory-mapped GPIO block: function-select field arithmetic, the
//! set/clear masks, a register bank that stands for the hardware, the blink
//! state machine, the zeroing of the start-up data region and the busy-wait.
use vstd::prelude::*;

pub mod gpio;
pub mod bank;
pub mod blink;
pub mod boot;
pub mod delay;

verus! {

} // verus!
