//! A CHIP-8 virtual machine whose instruction semantics are stated as a
//! mathematical model and proved of the executable interpreter.
//!
//! The machine is an 8-bit, register-based interpreter with 4096 bytes of
//! memory, sixteen registers, a sixteen-level call stack, two countdown
//! timers, a sixteen-key pad and a 64x32 monochrome display.

pub mod error;
pub mod entropy;
pub mod stack;
pub mod model;
pub mod decode;
pub mod display;
pub mod semantics;
pub mod machine;
pub mod laws;
pub mod frame;
pub mod pacer;
pub mod keypad;

pub use crate::error::Error;
pub use crate::error::Fault;
pub use crate::machine::Chip8;
pub use crate::model::DISPLAY_HEIGHT;
pub use crate::model::DISPLAY_SIZE;
pub use crate::model::DISPLAY_WIDTH;
