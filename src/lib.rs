//! Verified core of a host that runs a sandboxed module and lets it fork
//! isolated copies of itself.
//!
//! The execution engine (compiling, instantiating and calling into modules)
//! stays outside this library: it hands the library plain values (the bytes
//! of a linear memory, the exports it found, the integers that guest code
//! passed) and takes plain values back.

pub mod descriptor;
pub mod memory;
pub mod pid;
pub mod capability;
pub mod registry;
pub mod engine;
