//! Core of a completion-based asynchronous I/O runtime: buffer ownership
//! contracts, an operation registry with dense identifier reuse, and the
//! driver state machine that marshals submissions to a kernel completion
//! interface and routes completion entries back to their originators.
pub mod driver;
pub mod fixed;
pub mod io_buf;
pub mod iour;
pub mod null;
pub mod op;
pub mod registry;
pub mod shared_buf;
pub mod slice;
pub mod vectored;
pub mod write;
