//! The decoded form of a module.
pub mod functions;
pub mod globals;
pub mod language_types;
pub mod memory;
pub mod opcodes;
pub mod tables;
pub mod types;
