//! Versioned signature scanning and pointer-chain access to another process's memory.
pub mod aob;
pub mod bitflag;
pub mod chain;
pub mod codegen;
pub mod config;
pub mod flags;
pub mod memory;
pub mod patch;
pub mod pattern;
pub mod pointers;
pub mod versions;

