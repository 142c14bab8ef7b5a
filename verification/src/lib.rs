//! The decisions of a batch executor, which drives a virtual machine through
//! one L1 batch of L2 transactions.
//!
//! The executor never touches the machine. It is a state machine,
//! [`executor::BatchExecutor`], and a host performs what it asks for. For
//! each command of the batch the host calls the method of that name and gets
//! a [`protocol::Step`]: it performs the step's actions in order and then
//! does what the step's outcome says. After `Report` it hands back what
//! [`executor::BatchExecutor::awaits`] names and gets the next step; after
//! `Reply` it answers the command; after `Abort` it aborts, because the
//! machine broke its contract; after `Refused` the command was out of order
//! and nothing has been done.
//!
//! [`model`] says what a machine is to the executor, and [`laws`] what then
//! holds of every batch: snapshots are taken and given up in step with the
//! executor's state, a rejected transaction leaves no trace, and a retry
//! without bytecode compression cannot be told from a first run.

pub mod builder;
pub mod executor;
pub mod gas;
pub mod laws;
pub mod metrics;
pub mod model;
pub mod outcome;
pub mod protocol;
