//! The vocabulary shared by the executor and whoever drives the virtual
//! machine for it: the actions the executor asks for, what follows them, and
//! the ways a request can be turned down.

use vstd::prelude::*;

verus! {

/// One thing the executor asks its host to do. The host performs the actions
/// of a step in order; the executor never touches the virtual machine itself.
#[derive(Clone, Copy, Debug, PartialEq, Eq, Structural)]
pub enum Action {
    /// Push a restorable point onto the virtual machine's snapshot stack.
    MakeSnapshot,
    /// Restore the newest snapshot and remove it from the stack.
    RollbackToLatestSnapshot,
    /// Remove the newest snapshot and keep the current state.
    PopSnapshotNoRollback,
    /// Run the transaction, with or without bytecode compression, with or
    /// without a call tracer attached.
    InspectTransaction { with_compression: bool, trace_calls: bool },
    /// Read the bytecodes that the last transaction published.
    ReadCompressedBytecodes,
    /// Run the finalization of the block tip.
    ExecuteBlockTip,
    /// Advance the virtual machine to the next sub-block.
    StartNewL2Block,
    /// Run the terminal post-processing of the batch.
    FinishBatch,
    /// Take the read set and the write overlay out of the storage view.
    CaptureWitnessBlockState,
}

/// A state that the virtual machine must never report. The host aborts the
/// process on any of them, so that no malformed batch is sealed.
#[derive(Clone, Copy, Debug, PartialEq, Eq, Structural)]
pub enum Violation {
    /// A run without compression reported that compression failed.
    CompressionFailedWithoutCompression,
    /// The dry run of the block tip reverted, or halted for another reason
    /// than the bootloader's gas.
    BlockTipDryRunFailed,
    /// The block tip of the finished batch did not succeed.
    BatchBlockTipFailed,
}

/// Why the executor turned a request down. The executor is unchanged by a
/// request that it turns down.
#[derive(Clone, Copy, Debug, PartialEq, Eq, Structural)]
pub enum ProtocolError {
    /// The batch is finished: an executor runs exactly one batch.
    BatchFinished,
    /// The virtual machine broke its contract earlier on.
    Aborted,
    /// A command arrived while the previous one awaits a report.
    CommandInFlight,
    /// A report arrived that the executor was not waiting for.
    UnexpectedReport,
    /// There is no transaction that could be rolled back.
    NothingToRollBack,
    /// The last transaction left no gas for the block tip: it has to be
    /// rolled back before anything else.
    RollbackRequired,
}

/// The four commands of a batch.
#[derive(Clone, Copy, Debug, PartialEq, Eq, Structural)]
pub enum CommandKind {
    ExecuteTx,
    StartNextMiniblock,
    RollbackLastTx,
    FinishBatch,
}

/// What follows the actions of a step.
#[derive(Clone, Debug, PartialEq, Eq)]
pub enum Outcome<T> {
    /// Hand what the virtual machine reported back to the executor.
    Report,
    /// Answer the command with this reply.
    Reply(T),
    /// Abort: the virtual machine broke its contract.
    Abort(Violation),
    /// The request was out of order and nothing was done.
    Refused(ProtocolError),
}

/// One step of a command's handling: actions to perform in order, and what
/// follows them.
#[derive(Clone, Debug, PartialEq, Eq)]
pub struct Step<T> {
    pub actions: Vec<Action>,
    pub outcome: Outcome<T>,
}

impl CommandKind {
    /// The label under which the command's round-trip time is published.
    pub fn label(&self) -> (r: &'static str)
        ensures
            r@ == match *self {
                CommandKind::ExecuteTx => "execute_tx"@,
                CommandKind::StartNextMiniblock => "start_next_miniblock"@,
                CommandKind::RollbackLastTx => "rollback_last_tx"@,
                CommandKind::FinishBatch => "finish_batch"@,
            },
    {
        match self {
            CommandKind::ExecuteTx => "execute_tx",
            CommandKind::StartNextMiniblock => "start_next_miniblock",
            CommandKind::RollbackLastTx => "rollback_last_tx",
            CommandKind::FinishBatch => "finish_batch",
        }
    }
}

impl Violation {
    /// The message to abort with.
    pub fn message(&self) -> (r: &'static str)
        ensures
            r@ == match *self {
                Violation::CompressionFailedWithoutCompression =>
                    "Compression can't fail if we don't apply it"@,
                Violation::BlockTipDryRunFailed =>
                    "VM must not revert when finalizing block (except `BootloaderOutOfGas`)"@,
                Violation::BatchBlockTipFailed => "VM must not fail when finalizing block"@,
            },
    {
        match self {
            Violation::CompressionFailedWithoutCompression =>
                "Compression can't fail if we don't apply it",
            Violation::BlockTipDryRunFailed =>
                "VM must not revert when finalizing block (except `BootloaderOutOfGas`)",
            Violation::BatchBlockTipFailed => "VM must not fail when finalizing block",
        }
    }
}

} // verus!
