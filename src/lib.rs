// A pluggable I/O layer: capability traits for reading and writing files and
// unpacking archives, handles that attribute failures to their paths, one
// structured error type, and an in-memory write-only backend.

pub mod error;
pub mod write;
pub mod wrapped;
pub mod fs;
pub mod memory;
