//! The command surface of a small desktop shell: the operations that a
//! presentation layer invokes by name, with the decisions of each stated and
//! proved here, and the host framework's own work left to the caller.
pub mod greeting;
pub mod window;
