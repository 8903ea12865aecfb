//! Verified lifecycle and processing state machines for hosting and exposing
//! audio plugins across a C function-table ABI.
//!
//! The library holds every decision: which state an instance or processor is
//! in, which foreign entry must be invoked next, how a process cycle is laid
//! out and how a foreign status code is read back. The foreign calls themselves
//! are made by the caller, who hands their outcome back to the library.

pub mod cycle;
pub mod error;
pub mod instance;
pub mod processor;
pub mod status;
pub mod wrapper;
