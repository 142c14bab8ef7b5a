//! The batch executor: a state machine that turns the commands of one batch
//! into actions on a virtual machine and the machine's reports into replies.

use crate::gas::U256;
use crate::outcome::{ExecutionResult, Halt, TxArtifacts, TxExecutionResult};
use crate::protocol::{Action, CommandKind, Outcome, ProtocolError, Step, Violation};
use vstd::prelude::*;

verus! {

/// What may become of a transaction that has run and whose snapshot is
/// still on the stack.
#[derive(Clone, Copy, Debug, PartialEq, Eq, Structural)]
pub enum Standing {
    /// It can be kept, by going on, or rolled back.
    Revocable,
    /// It left no gas for the block tip: it has to be rolled back next.
    MustRevoke,
    /// A sub-block has started after it: it is kept for good.
    Kept,
}

/// The report that the executor waits for.
#[derive(Clone, Copy, Debug, PartialEq, Eq, Structural)]
pub enum Awaited {
    /// None: the executor is between commands, or past the end.
    Nothing,
    /// How a run of the transaction ended.
    TxRun,
    /// How the dry run of the block tip ended.
    BlockTipDryRun,
    /// The virtual machine's batch result.
    BatchResult,
}

/// Where the executor stands in the batch.
#[derive(Clone, Copy, Debug, PartialEq, Eq, Structural)]
pub enum Phase {
    /// Between commands, with no snapshot on the stack.
    Idle,
    /// Between commands, with the snapshot taken before the last executed
    /// transaction on the stack.
    TxPending { standing: Standing },
    /// Waiting for the run with bytecode compression.
    CompressionAttempt,
    /// Waiting for the run without bytecode compression.
    PlainAttempt,
    /// Waiting for the dry run of the block tip.
    DryRun,
    /// Waiting for the virtual machine's batch result.
    Finishing,
    /// The batch is finished.
    Finished,
    /// The virtual machine broke its contract.
    Aborted,
}

/// The executor as contracts see it.
pub struct ExecutorState {
    pub phase: Phase,
    /// How many snapshots the executor has on the virtual machine's stack.
    pub snapshots: nat,
    pub max_allowed_tx_gas_limit: nat,
    pub save_call_traces: bool,
    pub upload_witness_inputs_to_gcs: bool,
}

/// A step as contracts see it, together with the state it leads to.
pub struct Transition<T> {
    pub next: ExecutorState,
    pub actions: Seq<Action>,
    pub outcome: Outcome<T>,
}

impl Phase {
    /// The executor is between commands and ready for the next one.
    pub open spec fn resting(self) -> bool {
        self is Idle || self is TxPending
    }

    /// The report that is due in this phase.
    pub open spec fn spec_awaits(self) -> Awaited {
        match self {
            Phase::CompressionAttempt | Phase::PlainAttempt => Awaited::TxRun,
            Phase::DryRun => Awaited::BlockTipDryRun,
            Phase::Finishing => Awaited::BatchResult,
            _ => Awaited::Nothing,
        }
    }

    #[verifier::when_used_as_spec(spec_awaits)]
    pub fn awaits(self) -> (r: Awaited)
        ensures
            r == self.spec_awaits(),
    {
        match self {
            Phase::CompressionAttempt | Phase::PlainAttempt => Awaited::TxRun,
            Phase::DryRun => Awaited::BlockTipDryRun,
            Phase::Finishing => Awaited::BatchResult,
            _ => Awaited::Nothing,
        }
    }

    /// The snapshots that a phase keeps on the stack; from the command to
    /// finish the batch on, the stack stays as that command found it.
    pub open spec fn snapshots(self) -> Option<nat> {
        match self {
            Phase::Idle => Some(0),
            Phase::TxPending { .. } => Some(1),
            Phase::CompressionAttempt => Some(2),
            Phase::PlainAttempt => Some(1),
            Phase::DryRun => Some(1),
            Phase::Finishing | Phase::Finished | Phase::Aborted => None,
        }
    }
}

impl ExecutorState {
    /// The count of snapshots agrees with the phase.
    pub open spec fn wf(self) -> bool {
        match self.phase.snapshots() {
            Some(n) => self.snapshots == n,
            None => self.snapshots <= 1,
        }
    }

    /// The command is in order now.
    pub open spec fn takes(self, command: CommandKind) -> bool {
        self.refusal(command) is None
    }

    /// The state after a move to `phase` with `snapshots` on the stack.
    pub open spec fn at(self, phase: Phase, snapshots: nat) -> ExecutorState {
        ExecutorState { phase, snapshots, ..self }
    }

    /// A request that is turned down: nothing to do, nothing changed.
    pub open spec fn refuse<T>(self, error: ProtocolError) -> Transition<T> {
        Transition { next: self, actions: Seq::empty(), outcome: Outcome::Refused(error) }
    }

    /// Why no command at all can be taken now, if none can: the executor is
    /// not at rest.
    pub open spec fn unavailable(self) -> Option<ProtocolError> {
        match self.phase {
            Phase::Idle | Phase::TxPending { .. } => None,
            Phase::Finished => Some(ProtocolError::BatchFinished),
            Phase::Aborted => Some(ProtocolError::Aborted),
            _ => Some(ProtocolError::CommandInFlight),
        }
    }

    /// Why a command cannot be taken now, if it cannot. At rest every
    /// command is in order, but for two: after a transaction that left no
    /// gas for the block tip only a rollback is, and a rollback is in order
    /// only for a transaction that has run since the last sub-block started.
    pub open spec fn refusal(self, command: CommandKind) -> Option<ProtocolError> {
        match self.phase {
            Phase::Idle => if command is RollbackLastTx {
                Some(ProtocolError::NothingToRollBack)
            } else {
                None
            },
            Phase::TxPending { standing: Standing::Revocable } => None,
            Phase::TxPending { standing: Standing::MustRevoke } => if command is RollbackLastTx {
                None
            } else {
                Some(ProtocolError::RollbackRequired)
            },
            Phase::TxPending { standing: Standing::Kept } => if command is RollbackLastTx {
                Some(ProtocolError::NothingToRollBack)
            } else {
                None
            },
            Phase::Finished => Some(ProtocolError::BatchFinished),
            Phase::Aborted => Some(ProtocolError::Aborted),
            _ => Some(ProtocolError::CommandInFlight),
        }
    }

    /// The actions that accept the transaction executed before, if one is
    /// pending: its snapshot leaves the stack and its effects stay.
    pub open spec fn accept_pending(self) -> Seq<Action> {
        if self.phase is TxPending {
            seq![Action::PopSnapshotNoRollback]
        } else {
            Seq::empty()
        }
    }

    /// The command to execute a transaction with the given gas limit.
    ///
    /// At rest, a transaction over the limit is rejected at once and nothing
    /// changes. A transaction within the limit, where the command is in
    /// order: the transaction executed before is accepted, a snapshot is
    /// taken for a later rollback, a second one for the attempt, and the
    /// transaction runs with bytecode compression.
    pub open spec fn execute_tx<R, M, B, C, X>(self, gas_limit: nat) -> Transition<
        TxExecutionResult<R, M, B, C, X>,
    > {
        if let Some(error) = self.unavailable() {
            self.refuse(error)
        } else if gas_limit > self.max_allowed_tx_gas_limit {
            Transition {
                next: self,
                actions: Seq::empty(),
                outcome: Outcome::Reply(
                    TxExecutionResult::RejectedByVm { reason: Halt::TooBigGasLimit },
                ),
            }
        } else if let Some(error) = self.refusal(CommandKind::ExecuteTx) {
            self.refuse(error)
        } else {
            Transition {
                next: self.at(Phase::CompressionAttempt, 2),
                actions: self.accept_pending() + seq![
                    Action::MakeSnapshot,
                    Action::MakeSnapshot,
                    Action::InspectTransaction {
                        with_compression: true,
                        trace_calls: self.save_call_traces,
                    },
                ],
                outcome: Outcome::Report,
            }
        }
    }

    /// What follows a run that the virtual machine accepted, once the
    /// snapshot of the attempt is gone: a halted transaction is undone and
    /// answered, any other goes on to the dry run of the block tip, which is
    /// undone as soon as it has run.
    pub open spec fn after_run<R, M, B, C, X>(
        self,
        result: ExecutionResult<X>,
        settle: Seq<Action>,
    ) -> Transition<TxExecutionResult<R, M, B, C, X>> {
        match result {
            ExecutionResult::Halt { reason } => Transition {
                next: self.at(Phase::Idle, 0),
                actions: settle + seq![Action::RollbackToLatestSnapshot],
                outcome: Outcome::Reply(TxExecutionResult::halted(reason)),
            },
            _ => Transition {
                next: self.at(Phase::DryRun, 1),
                actions: settle + seq![
                    Action::MakeSnapshot,
                    Action::ExecuteBlockTip,
                    Action::RollbackToLatestSnapshot,
                ],
                outcome: Outcome::Report,
            },
        }
    }

    /// The report of a run of the transaction: `None` where bytecode
    /// compression failed, else how the run ended.
    ///
    /// After a failed attempt with compression the attempt is undone and the
    /// transaction runs again without compression; that run cannot fail in
    /// this way.
    pub open spec fn execute_tx_in_vm<R, M, B, C, X>(
        self,
        attempt: Option<ExecutionResult<X>>,
    ) -> Transition<TxExecutionResult<R, M, B, C, X>> {
        match (self.phase, attempt) {
            (Phase::CompressionAttempt, Some(result)) => self.after_run(
                result,
                seq![Action::ReadCompressedBytecodes, Action::PopSnapshotNoRollback],
            ),
            (Phase::CompressionAttempt, None) => Transition {
                next: self.at(Phase::PlainAttempt, 1),
                actions: seq![
                    Action::RollbackToLatestSnapshot,
                    Action::InspectTransaction {
                        with_compression: false,
                        trace_calls: self.save_call_traces,
                    },
                ],
                outcome: Outcome::Report,
            },
            (Phase::PlainAttempt, Some(result)) => self.after_run(
                result,
                seq![Action::ReadCompressedBytecodes],
            ),
            (Phase::PlainAttempt, None) => Transition {
                next: self.at(Phase::Aborted, self.snapshots),
                actions: Seq::empty(),
                outcome: Outcome::Abort(Violation::CompressionFailedWithoutCompression),
            },
            _ => self.refuse(ProtocolError::UnexpectedReport),
        }
    }

    /// The report of the dry run of the block tip, which has been undone by
    /// the time it arrives. The snapshot taken before the transaction stays
    /// on the stack. After a dry run that succeeded the transaction can be
    /// kept or rolled back; after one that left the bootloader out of gas it
    /// has to be rolled back. Any other report breaks the machine's contract.
    pub open spec fn dryrun_block_tip<R, M, B, C, X>(
        self,
        report: ExecutionResult<X>,
        artifacts: TxArtifacts<R, M, B, C>,
    ) -> Transition<TxExecutionResult<R, M, B, C, X>> {
        if !(self.phase is DryRun) {
            self.refuse(ProtocolError::UnexpectedReport)
        } else {
            match report {
                ExecutionResult::Success => Transition {
                    next: self.at(Phase::TxPending { standing: Standing::Revocable }, 1),
                    actions: Seq::empty(),
                    outcome: Outcome::Reply(TxExecutionResult::success(artifacts)),
                },
                ExecutionResult::Halt { reason: Halt::BootloaderOutOfGas } => Transition {
                    next: self.at(Phase::TxPending { standing: Standing::MustRevoke }, 1),
                    actions: Seq::empty(),
                    outcome: Outcome::Reply(TxExecutionResult::BootloaderOutOfGasForBlockTip),
                },
                _ => Transition {
                    next: self.at(Phase::Aborted, self.snapshots),
                    actions: Seq::empty(),
                    outcome: Outcome::Abort(Violation::BlockTipDryRunFailed),
                },
            }
        }
    }

    /// The command to roll back the last transaction: the snapshot taken
    /// before it is restored and leaves the stack.
    pub open spec fn rollback_last_tx(self) -> Transition<()> {
        if let Some(error) = self.refusal(CommandKind::RollbackLastTx) {
            self.refuse(error)
        } else {
            Transition {
                next: self.at(Phase::Idle, 0),
                actions: seq![Action::RollbackToLatestSnapshot],
                outcome: Outcome::Reply(()),
            }
        }
    }

    /// The command to start the next sub-block. No snapshot is touched; a
    /// pending transaction is accepted by it and can no longer be rolled
    /// back.
    pub open spec fn start_next_miniblock(self) -> Transition<()> {
        if let Some(error) = self.refusal(CommandKind::StartNextMiniblock) {
            self.refuse(error)
        } else {
            Transition {
                next: if self.phase is TxPending {
                    self.at(Phase::TxPending { standing: Standing::Kept }, self.snapshots)
                } else {
                    self
                },
                actions: seq![Action::StartNewL2Block],
                outcome: Outcome::Reply(()),
            }
        }
    }

    /// The command to finish the batch.
    pub open spec fn finish_batch<F>(self) -> Transition<F> {
        if let Some(error) = self.refusal(CommandKind::FinishBatch) {
            self.refuse(error)
        } else {
            Transition {
                next: self.at(Phase::Finishing, self.snapshots),
                actions: seq![Action::FinishBatch],
                outcome: Outcome::Report,
            }
        }
    }

    /// The virtual machine's batch result, with the result of the block tip
    /// that it carries. The witness block state is captured if and only if
    /// the executor was made to upload witness inputs.
    pub open spec fn batch_finished<F, X>(self, block_tip: ExecutionResult<X>, batch: F) -> Transition<
        F,
    > {
        if !(self.phase is Finishing) {
            self.refuse(ProtocolError::UnexpectedReport)
        } else if block_tip.is_failed() {
            Transition {
                next: self.at(Phase::Aborted, self.snapshots),
                actions: Seq::empty(),
                outcome: Outcome::Abort(Violation::BatchBlockTipFailed),
            }
        } else {
            Transition {
                next: self.at(Phase::Finished, self.snapshots),
                actions: if self.upload_witness_inputs_to_gcs {
                    seq![Action::CaptureWitnessBlockState]
                } else {
                    Seq::empty()
                },
                outcome: Outcome::Reply(batch),
            }
        }
    }
}

/// Runs exactly one batch. It is made idle, takes the commands of the batch
/// one at a time, and after the batch is finished takes none.
#[derive(Debug)]
pub struct BatchExecutor {
    save_call_traces: bool,
    max_allowed_tx_gas_limit: U256,
    upload_witness_inputs_to_gcs: bool,
    phase: Phase,
    snapshots: u8,
}

impl View for BatchExecutor {
    type V = ExecutorState;

    closed spec fn view(&self) -> ExecutorState {
        ExecutorState {
            phase: self.phase,
            snapshots: self.snapshots as nat,
            max_allowed_tx_gas_limit: self.max_allowed_tx_gas_limit@,
            save_call_traces: self.save_call_traces,
            upload_witness_inputs_to_gcs: self.upload_witness_inputs_to_gcs,
        }
    }
}

impl BatchExecutor {
    #[verifier::type_invariant]
    spec fn inv(&self) -> bool {
        self@.wf()
    }

    /// An idle executor at the start of a batch.
    pub fn new(
        save_call_traces: bool,
        max_allowed_tx_gas_limit: U256,
        upload_witness_inputs_to_gcs: bool,
    ) -> (r: Self)
        ensures
            r@ == (ExecutorState {
                phase: Phase::Idle,
                snapshots: 0,
                max_allowed_tx_gas_limit: max_allowed_tx_gas_limit@,
                save_call_traces,
                upload_witness_inputs_to_gcs,
            }),
    {
        BatchExecutor {
            save_call_traces,
            max_allowed_tx_gas_limit,
            upload_witness_inputs_to_gcs,
            phase: Phase::Idle,
            snapshots: 0,
        }
    }

    /// Where the executor stands.
    pub fn phase(&self) -> (r: Phase)
        ensures
            r == self@.phase,
    {
        self.phase
    }

    /// The report that the executor waits for.
    pub fn awaits(&self) -> (r: Awaited)
        ensures
            r == self@.phase.awaits(),
    {
        self.phase.awaits()
    }

    /// How many snapshots the executor has on the stack.
    pub fn snapshots(&self) -> (r: u8)
        ensures
            r == self@.snapshots,
            self@.wf(),
    {
        proof {
            use_type_invariant(self);
        }
        self.snapshots
    }

    /// Why no command can be taken, for an executor that is not at rest.
    fn closed(&self) -> (r: ProtocolError)
        requires
            !self@.phase.resting(),
        ensures
            Some(r) == self@.unavailable(),
    {
        match self.phase {
            Phase::Finished => ProtocolError::BatchFinished,
            Phase::Aborted => ProtocolError::Aborted,
            _ => ProtocolError::CommandInFlight,
        }
    }

    /// Why the command cannot be taken now, if it cannot.
    pub fn refusal(&self, command: CommandKind) -> (r: Option<ProtocolError>)
        ensures
            r == self@.refusal(command),
    {
        let rollback = match command {
            CommandKind::RollbackLastTx => true,
            _ => false,
        };
        match self.phase {
            Phase::Idle => if rollback {
                Some(ProtocolError::NothingToRollBack)
            } else {
                None
            },
            Phase::TxPending { standing: Standing::Revocable } => None,
            Phase::TxPending { standing: Standing::MustRevoke } => if rollback {
                None
            } else {
                Some(ProtocolError::RollbackRequired)
            },
            Phase::TxPending { standing: Standing::Kept } => if rollback {
                Some(ProtocolError::NothingToRollBack)
            } else {
                None
            },
            Phase::Finished => Some(ProtocolError::BatchFinished),
            Phase::Aborted => Some(ProtocolError::Aborted),
            _ => Some(ProtocolError::CommandInFlight),
        }
    }

    fn enter(&mut self, phase: Phase, snapshots: u8)
        requires
            old(self)@.at(phase, snapshots as nat).wf(),
        ensures
            final(self)@ == old(self)@.at(phase, snapshots as nat),
    {
        *self = BatchExecutor {
            save_call_traces: self.save_call_traces,
            max_allowed_tx_gas_limit: self.max_allowed_tx_gas_limit,
            upload_witness_inputs_to_gcs: self.upload_witness_inputs_to_gcs,
            phase,
            snapshots,
        };
    }

    /// Takes the command to execute a transaction with the given gas limit.
    pub fn execute_tx<R, M, B, C, X>(&mut self, gas_limit: &U256) -> (step: Step<
        TxExecutionResult<R, M, B, C, X>,
    >)
        ensures
            final(self)@ == old(self)@.execute_tx::<R, M, B, C, X>(gas_limit@).next,
            step.actions@ == old(self)@.execute_tx::<R, M, B, C, X>(gas_limit@).actions,
            step.outcome == old(self)@.execute_tx::<R, M, B, C, X>(gas_limit@).outcome,
            old(self)@.phase.resting() && gas_limit@ > old(self)@.max_allowed_tx_gas_limit ==> {
                &&& step.outcome == Outcome::<TxExecutionResult<R, M, B, C, X>>::Reply(
                    TxExecutionResult::RejectedByVm { reason: Halt::TooBigGasLimit },
                )
                &&& step.actions@.len() == 0
                &&& final(self)@ == old(self)@
            },
    {
        match self.phase {
            Phase::Idle | Phase::TxPending { .. } => {},
            _ => {
                return Step { actions: Vec::new(), outcome: Outcome::Refused(self.closed()) };
            },
        }
        if gas_limit.exceeds(&self.max_allowed_tx_gas_limit) {
            return Step {
                actions: Vec::new(),
                outcome: Outcome::Reply(
                    TxExecutionResult::RejectedByVm { reason: Halt::TooBigGasLimit },
                ),
            };
        }
        if let Some(error) = self.refusal(CommandKind::ExecuteTx) {
            return Step { actions: Vec::new(), outcome: Outcome::Refused(error) };
        }
        let mut actions: Vec<Action> = Vec::new();
        if let Phase::TxPending { .. } = self.phase {
            actions.push(Action::PopSnapshotNoRollback);
        }
        actions.push(Action::MakeSnapshot);
        actions.push(Action::MakeSnapshot);
        actions.push(
            Action::InspectTransaction {
                with_compression: true,
                trace_calls: self.save_call_traces,
            },
        );
        self.enter(Phase::CompressionAttempt, 2);
        Step { actions, outcome: Outcome::Report }
    }

    /// The actions after an accepted run, `settle` first.
    fn after_run<R, M, B, C, X>(&mut self, result: ExecutionResult<X>, settle: Vec<Action>) -> (step:
        Step<TxExecutionResult<R, M, B, C, X>>)
        requires
            old(self)@.phase is CompressionAttempt || old(self)@.phase is PlainAttempt,
        ensures
            final(self)@ == old(self)@.after_run::<R, M, B, C, X>(result, settle@).next,
            step.actions@ == old(self)@.after_run::<R, M, B, C, X>(result, settle@).actions,
            step.outcome == old(self)@.after_run::<R, M, B, C, X>(result, settle@).outcome,
    {
        let mut actions = settle;
        match result {
            ExecutionResult::Halt { reason } => {
                actions.push(Action::RollbackToLatestSnapshot);
                self.enter(Phase::Idle, 0);
                Step { actions, outcome: Outcome::Reply(TxExecutionResult::halted(reason)) }
            },
            _ => {
                actions.push(Action::MakeSnapshot);
                actions.push(Action::ExecuteBlockTip);
                actions.push(Action::RollbackToLatestSnapshot);
                self.enter(Phase::DryRun, 1);
                Step { actions, outcome: Outcome::Report }
            },
        }
    }

    /// Takes the report of a run of the transaction: `None` where bytecode
    /// compression failed, else how the run ended.
    pub fn execute_tx_in_vm<R, M, B, C, X>(&mut self, attempt: Option<ExecutionResult<X>>) -> (step:
        Step<TxExecutionResult<R, M, B, C, X>>)
        ensures
            final(self)@ == old(self)@.execute_tx_in_vm::<R, M, B, C, X>(attempt).next,
            step.actions@ == old(self)@.execute_tx_in_vm::<R, M, B, C, X>(attempt).actions,
            step.outcome == old(self)@.execute_tx_in_vm::<R, M, B, C, X>(attempt).outcome,
    {
        proof {
            use_type_invariant(&*self);
        }
        match (self.phase, attempt) {
            (Phase::CompressionAttempt, Some(result)) => {
                let mut settle: Vec<Action> = Vec::new();
                settle.push(Action::ReadCompressedBytecodes);
                settle.push(Action::PopSnapshotNoRollback);
                self.after_run(result, settle)
            },
            (Phase::CompressionAttempt, None) => {
                let mut actions: Vec<Action> = Vec::new();
                actions.push(Action::RollbackToLatestSnapshot);
                actions.push(
                    Action::InspectTransaction {
                        with_compression: false,
                        trace_calls: self.save_call_traces,
                    },
                );
                self.enter(Phase::PlainAttempt, 1);
                Step { actions, outcome: Outcome::Report }
            },
            (Phase::PlainAttempt, Some(result)) => {
                let mut settle: Vec<Action> = Vec::new();
                settle.push(Action::ReadCompressedBytecodes);
                self.after_run(result, settle)
            },
            (Phase::PlainAttempt, None) => {
                let snapshots = self.snapshots;
                self.enter(Phase::Aborted, snapshots);
                Step {
                    actions: Vec::new(),
                    outcome: Outcome::Abort(Violation::CompressionFailedWithoutCompression),
                }
            },
            _ => Step {
                actions: Vec::new(),
                outcome: Outcome::Refused(ProtocolError::UnexpectedReport),
            },
        }
    }

    /// Takes the report of the dry run of the block tip, and what a
    /// successful reply is assembled from.
    pub fn dryrun_block_tip<R, M, B, C, X>(
        &mut self,
        report: ExecutionResult<X>,
        artifacts: TxArtifacts<R, M, B, C>,
    ) -> (step: Step<TxExecutionResult<R, M, B, C, X>>)
        ensures
            final(self)@ == old(self)@.dryrun_block_tip::<R, M, B, C, X>(report, artifacts).next,
            step.actions@ == old(self)@.dryrun_block_tip::<R, M, B, C, X>(report, artifacts).actions,
            step.outcome == old(self)@.dryrun_block_tip::<R, M, B, C, X>(report, artifacts).outcome,
    {
        proof {
            use_type_invariant(&*self);
        }
        match self.phase {
            Phase::DryRun => {},
            _ => {
                return Step {
                    actions: Vec::new(),
                    outcome: Outcome::Refused(ProtocolError::UnexpectedReport),
                };
            },
        }
        match report {
            ExecutionResult::Success => {
                self.enter(Phase::TxPending { standing: Standing::Revocable }, 1);
                Step {
                    actions: Vec::new(),
                    outcome: Outcome::Reply(TxExecutionResult::success(artifacts)),
                }
            },
            ExecutionResult::Halt { reason: Halt::BootloaderOutOfGas } => {
                self.enter(Phase::TxPending { standing: Standing::MustRevoke }, 1);
                Step {
                    actions: Vec::new(),
                    outcome: Outcome::Reply(TxExecutionResult::BootloaderOutOfGasForBlockTip),
                }
            },
            _ => {
                let snapshots = self.snapshots;
                self.enter(Phase::Aborted, snapshots);
                Step {
                    actions: Vec::new(),
                    outcome: Outcome::Abort(Violation::BlockTipDryRunFailed),
                }
            },
        }
    }

    /// Takes the command to roll back the last transaction.
    pub fn rollback_last_tx(&mut self) -> (step: Step<()>)
        ensures
            final(self)@ == old(self)@.rollback_last_tx().next,
            step.actions@ == old(self)@.rollback_last_tx().actions,
            step.outcome == old(self)@.rollback_last_tx().outcome,
    {
        if let Some(error) = self.refusal(CommandKind::RollbackLastTx) {
            return Step { actions: Vec::new(), outcome: Outcome::Refused(error) };
        }
        let mut actions: Vec<Action> = Vec::new();
        actions.push(Action::RollbackToLatestSnapshot);
        self.enter(Phase::Idle, 0);
        Step { actions, outcome: Outcome::Reply(()) }
    }

    /// Takes the command to start the next sub-block.
    pub fn start_next_miniblock(&mut self) -> (step: Step<()>)
        ensures
            final(self)@ == old(self)@.start_next_miniblock().next,
            step.actions@ == old(self)@.start_next_miniblock().actions,
            step.outcome == old(self)@.start_next_miniblock().outcome,
    {
        proof {
            use_type_invariant(&*self);
        }
        if let Some(error) = self.refusal(CommandKind::StartNextMiniblock) {
            return Step { actions: Vec::new(), outcome: Outcome::Refused(error) };
        }
        if let Phase::TxPending { .. } = self.phase {
            let snapshots = self.snapshots;
            self.enter(Phase::TxPending { standing: Standing::Kept }, snapshots);
        }
        let mut actions: Vec<Action> = Vec::new();
        actions.push(Action::StartNewL2Block);
        Step { actions, outcome: Outcome::Reply(()) }
    }

    /// Takes the command to finish the batch.
    pub fn finish_batch<F>(&mut self) -> (step: Step<F>)
        ensures
            final(self)@ == old(self)@.finish_batch::<F>().next,
            step.actions@ == old(self)@.finish_batch::<F>().actions,
            step.outcome == old(self)@.finish_batch::<F>().outcome,
    {
        proof {
            use_type_invariant(&*self);
        }
        if let Some(error) = self.refusal(CommandKind::FinishBatch) {
            return Step { actions: Vec::new(), outcome: Outcome::Refused(error) };
        }
        let snapshots = self.snapshots;
        self.enter(Phase::Finishing, snapshots);
        let mut actions: Vec<Action> = Vec::new();
        actions.push(Action::FinishBatch);
        Step { actions, outcome: Outcome::Report }
    }

    /// Takes the virtual machine's batch result and the result of the block
    /// tip that it carries.
    pub fn batch_finished<F, X>(&mut self, block_tip: &ExecutionResult<X>, batch: F) -> (step: Step<F>)
        ensures
            final(self)@ == old(self)@.batch_finished(*block_tip, batch).next,
            step.actions@ == old(self)@.batch_finished(*block_tip, batch).actions,
            step.outcome == old(self)@.batch_finished(*block_tip, batch).outcome,
            step.outcome is Reply ==> (step.actions@.contains(Action::CaptureWitnessBlockState)
                <==> old(self)@.upload_witness_inputs_to_gcs),
    {
        proof {
            use_type_invariant(&*self);
        }
        match self.phase {
            Phase::Finishing => {},
            _ => {
                return Step {
                    actions: Vec::new(),
                    outcome: Outcome::Refused(ProtocolError::UnexpectedReport),
                };
            },
        }
        let snapshots = self.snapshots;
        if block_tip.is_failed() {
            self.enter(Phase::Aborted, snapshots);
            return Step {
                actions: Vec::new(),
                outcome: Outcome::Abort(Violation::BatchBlockTipFailed),
            };
        }
        self.enter(Phase::Finished, snapshots);
        let mut actions: Vec<Action> = Vec::new();
        if self.upload_witness_inputs_to_gcs {
            actions.push(Action::CaptureWitnessBlockState);
            assert(actions@[0] == Action::CaptureWitnessBlockState);
        }
        Step { actions, outcome: Outcome::Reply(batch) }
    }
}

} // verus!
