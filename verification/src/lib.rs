//! An interpreter core for the CHIP-8 virtual machine: a fetch-decode-execute
//! engine over a fixed memory image, sixteen registers, a call stack and a
//! program counter. Display, keyboard, timers and sound are left to what
//! embeds the core.
//!
//! - [`cpu`]: the state of the machine and the bounds checks that guard it.
//! - [`decoder`]: from an instruction word to an [`Operation`].
//! - [`executor`]: one handler for each instruction, and their dispatch.
//! - [`run`]: single steps and whole runs.
//! - [`machine`]: the mathematical model that the contracts speak of.
//! - [`laws`]: what is proved of that model.

pub mod fault;
pub mod decoder;
pub mod machine;
pub mod cpu;
pub mod executor;
pub mod run;
pub mod laws;

pub use crate::cpu::CPU;
pub use crate::decoder::{decode, Operation};
pub use crate::fault::{Fault, RunState};
pub use crate::run::StepResult;
