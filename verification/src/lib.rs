//! A small register-based virtual machine.
//!
//! The machine owns a fixed 4096-byte memory and a bank of sixteen 32-bit
//! registers, register 0 doubling as the instruction pointer.  Programs are
//! byte streams decoded instruction by instruction; every way a program can
//! misbehave is reported through [`machine::MachineError`] instead of
//! trapping.  Output-producing instructions write UTF-8 text to any
//! [`sink::Sink`].

pub mod laws;
pub mod machine;
pub mod model;
pub mod output;
pub mod sink;
pub mod words;

pub use machine::Machine;
pub use machine::MachineError;
pub use model::MachineView;
pub use sink::Sink;
pub use sink::VecSink;
