//! The `io_uring` driver's decisions.

pub mod driver;
pub mod entry;
pub mod errno;
pub mod inner;
pub mod op_laws;
pub mod ops;
pub mod park;
pub mod park_laws;
pub mod park_step_laws;
pub mod park_time_laws;
pub mod setup;
pub mod setup_laws;
pub mod slab;
