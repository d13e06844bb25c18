//! Hook registration and installation for functions of a loaded native module:
//! locating a module's base address, resolving offsets into absolute addresses,
//! the one-time initialization gate, the per-hook slot that holds the captured
//! original function, the installation state machine, and the plan that the
//! hook attribute generates code from.

pub mod address;
pub mod error;
pub mod locator;
pub mod gate;
pub mod slot;
pub mod installer;
pub mod codegen;
