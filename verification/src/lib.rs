//! Core of a cooperative microkernel for a single-core microcontroller:
//! bounded containers, the process model, the boot-time loader, the
//! scheduler / syscall dispatcher, and the software alarm multiplexer.
//!
//! Hardware work (the context switch itself, register access, the timer
//! comparator) is performed by the surrounding platform glue; this crate
//! holds the state and the decisions, with their contracts.

pub mod array_list;
pub mod loader;
pub mod process;
pub mod ring_buffer;
pub mod sched;
pub mod timer;
pub mod usart;
