//! The execution core of a CHIP-8 virtual machine: display surface, keypad,
//! machine state, instruction decoding and execution, and the frame scheduler
//! that couples instruction throughput to a fixed-rate timer tick.

pub mod screen;
pub mod error;
pub mod instruction;
pub mod keypad;
pub mod machine;
pub mod execute;
pub mod scheduler;
pub mod theorems;
