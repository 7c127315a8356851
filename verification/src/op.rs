//! The opcode abstraction: a user-level operation value that knows how to
//! emit the kernel submission entry for itself.
use vstd::prelude::*;

use io_uring::squeue;
use io_uring::squeue::Entry as SqueueEntry;

verus! {

/// Kernel submission-ring entry type of the `io_uring` crate, carried
/// opaquely through the driver.
#[verifier::external_type_specification]
#[verifier::external_body]
pub struct ExSqueueEntry(SqueueEntry);

/// Abstraction of io-uring operations.
///
/// An opcode is constructed by the caller, transferred into the driver, and
/// recovered by value when its completion is popped. While it is registered,
/// the driver asks it to create the submission entry describing it.
pub trait OpCode {
    /// Create the submission entry for this operation.
    fn create_entry(&mut self) -> squeue::Entry;
}

/// Relies on `io_uring::opcode::AsyncCancel`: builds an asynchronous-cancel
/// submission entry targeting the operation that was submitted with `target`
/// as its user data.
#[verifier::external_body]
pub(crate) fn async_cancel_sqe(target: usize) -> squeue::Entry {
    io_uring::opcode::AsyncCancel::new(target as u64).build()
}

} // verus!
