//! A verified CHIP-8 virtual-machine core: a fetch-decode-execute interpreter
//! over 4KB of memory, 16 general registers, a 16-level call stack, two
//! countdown timers, a 64x32 monochrome framebuffer and a 16-key input latch.
//!
//! The `Processor` owns all architectural state and exposes one step of the
//! interpreter as a verified transition; the terminal front end around it
//! drives the loop, renders frames and supplies key events.

mod keypad;
mod lemmas;
mod processor;
mod state;
mod step;

pub use keypad::{Input, KeyStroke, Keypad};
pub use processor::{LoadError, Processor};
pub use state::State;
pub use step::{Fault, Flow};
