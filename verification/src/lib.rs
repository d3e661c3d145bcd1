//! A CHIP-8 virtual machine core: instruction decoding, the instruction
//! executor, the display buffer and the timer governor, with their
//! behaviour stated as contracts over a mathematical model of the machine.

pub mod decode;
pub mod display;
mod entropy;
pub mod fault;
pub mod laws;
pub mod machine;
pub mod model;
pub mod timer;

pub use crate::decode::Instruction;
pub use crate::display::Display;
pub use crate::fault::Fault;
pub use crate::machine::{Chip8, Executed, Options, StepOutcome, Ticked};
