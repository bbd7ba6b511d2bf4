//! A verified core of a 6502-family CPU emulator.
//!
//! The crate decodes machine-code bytes into typed instructions and executes
//! them against a register file and a flat 64KB memory, tracking cycle cost.
//! Every executable function carries a contract that pins its behaviour to a
//! mathematical model of the machine.

pub mod machine;
pub mod processor;
pub mod operators;
