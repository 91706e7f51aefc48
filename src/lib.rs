//! Finite-sample analog acquisition on a hardware task handle.
//!
//! The driver itself is reached by the caller: each type here is a state
//! machine that says which driver operation comes next and what follows from
//! the status the driver returned.
pub mod error;
pub mod handle;
pub mod mode;
pub mod setup;
pub mod task;
