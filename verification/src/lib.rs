//! The decision core of a thread-per-core `io_uring` runtime.
//!
//! Every rule the runtime follows is a verified function here: how tasks are
//! queued and drained, when the reactor spins and when it goes to sleep, what a
//! completion does to the operation it belongs to, how the ring is built. The
//! system calls themselves belong to the host, which performs the actions these
//! functions ask for and hands back what it observed.

pub mod client_gate;
pub mod context;
pub mod reactor_park;
pub mod runtime;
pub mod runtime_laws;
pub mod scheduler;
pub mod stall;
pub mod text;
pub mod text_laws;
pub mod uring;
pub mod wakers;
