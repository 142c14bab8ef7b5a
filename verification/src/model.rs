//! The virtual machine as the executor relies on it, with a host that does
//! what the executor asks: a state that transactions change, a stack of
//! snapshots that restores it, and results that depend on the state alone.
//!
//! Nothing here runs. `S` stands for all that the machine and its storage
//! view hold: the read set, the write overlay, the published bytecodes.

use crate::executor::{ExecutorState, Phase, Transition};
use crate::outcome::{ExecutionResult, TxArtifacts, TxExecutionResult};
use crate::protocol::{Action, Outcome};
use vstd::prelude::*;

verus! {

/// What a run of the transaction hands out: how it ended, the machine's
/// result-and-logs, and the calls that the tracer collected.
pub struct TxRun<R, C, X> {
    pub result: ExecutionResult<X>,
    pub logs: R,
    pub calls: Vec<C>,
}

/// How a machine moves: for each request the state it leaves and what it
/// hands out.
#[verifier::reject_recursive_types(S)]
#[verifier::reject_recursive_types(R)]
pub struct Engine<S, R, M, B, C, X> {
    /// A run of the transaction from a state, with or without bytecode
    /// compression, with or without a call tracer. It hands out `None`
    /// where bytecode compression failed.
    pub inspect: spec_fn(S, bool, bool) -> (S, Option<TxRun<R, C, X>>),
    /// The bytecodes that the last transaction published.
    pub published: spec_fn(S) -> Vec<B>,
    /// The finalization of the block tip.
    pub block_tip: spec_fn(S) -> (S, ExecutionResult<X>, R),
    /// The start of the next sub-block.
    pub start_block: spec_fn(S) -> S,
    /// The terminal post-processing: it hands out the result of the block
    /// tip that the batch result carries.
    pub finish: spec_fn(S) -> (S, ExecutionResult<X>),
    /// The metrics of a result-and-logs, of a transaction or of a block tip.
    pub metrics: spec_fn(R, bool) -> M,
}

/// A machine in the hands of a host: its state, its snapshot stack, and what
/// the host has last collected from it.
pub struct Machine<S, R, B, C, X> {
    pub state: S,
    pub snapshots: Seq<S>,
    /// What the last run of the transaction handed out.
    pub attempt: Option<TxRun<R, C, X>>,
    /// The bytecodes last read.
    pub bytecodes: Vec<B>,
    /// What the last block tip handed out.
    pub block_tip: (ExecutionResult<X>, R),
    /// The block tip's result in the batch result.
    pub batch: ExecutionResult<X>,
    /// An action asked for a snapshot when the stack was empty.
    pub underflowed: bool,
    /// The deepest that the stack has been.
    pub peak: nat,
}

impl<S, R, M, B, C, X> Engine<S, R, M, B, C, X> {
    /// A tracer that is not attached collects no call.
    pub open spec fn traces_on_request_only(self) -> bool {
        forall|s: S, with_compression: bool|
            (#[trigger] (self.inspect)(s, with_compression, false)).1 matches Some(run)
                ==> run.calls@.len() == 0
    }
}

impl<S, R, B, C, X> Machine<S, R, B, C, X> {
    /// The machine after one action.
    pub open spec fn perform<M>(self, e: Engine<S, R, M, B, C, X>, action: Action) -> Self {
        match action {
            Action::MakeSnapshot => Machine {
                snapshots: self.snapshots.push(self.state),
                peak: if self.snapshots.len() + 1 > self.peak {
                    self.snapshots.len() + 1
                } else {
                    self.peak
                },
                ..self
            },
            Action::RollbackToLatestSnapshot => if self.snapshots.len() == 0 {
                Machine { underflowed: true, ..self }
            } else {
                Machine {
                    state: self.snapshots.last(),
                    snapshots: self.snapshots.drop_last(),
                    ..self
                }
            },
            Action::PopSnapshotNoRollback => if self.snapshots.len() == 0 {
                Machine { underflowed: true, ..self }
            } else {
                Machine { snapshots: self.snapshots.drop_last(), ..self }
            },
            Action::InspectTransaction { with_compression, trace_calls } => Machine {
                state: (e.inspect)(self.state, with_compression, trace_calls).0,
                attempt: (e.inspect)(self.state, with_compression, trace_calls).1,
                ..self
            },
            Action::ReadCompressedBytecodes => Machine {
                bytecodes: (e.published)(self.state),
                ..self
            },
            Action::ExecuteBlockTip => Machine {
                state: (e.block_tip)(self.state).0,
                block_tip: ((e.block_tip)(self.state).1, (e.block_tip)(self.state).2),
                ..self
            },
            Action::StartNewL2Block => Machine { state: (e.start_block)(self.state), ..self },
            Action::FinishBatch => Machine {
                state: (e.finish)(self.state).0,
                batch: (e.finish)(self.state).1,
                ..self
            },
            Action::CaptureWitnessBlockState => self,
        }
    }

    /// The machine after a list of actions, performed in order.
    pub open spec fn perform_all<M>(self, e: Engine<S, R, M, B, C, X>, actions: Seq<Action>) -> Self
        decreases actions.len(),
    {
        if actions.len() == 0 {
            self
        } else {
            self.perform_all(e, actions.drop_last()).perform(e, actions.last())
        }
    }

    /// The machine holds the snapshots that the executor counts, and no
    /// action has failed on it.
    pub open spec fn serves(self, x: ExecutorState) -> bool {
        &&& x.wf()
        &&& self.snapshots.len() == x.snapshots
        &&& !self.underflowed
    }

    /// How the last run of the transaction ended: `None` where bytecode
    /// compression failed.
    pub open spec fn attempt_result(self) -> Option<ExecutionResult<X>> {
        match self.attempt {
            Some(run) => Some(run.result),
            None => None,
        }
    }

    /// What the host hands over with the report of the dry run: the last of
    /// each thing that it has collected.
    pub open spec fn artifacts<M>(self, e: Engine<S, R, M, B, C, X>) -> TxArtifacts<R, M, B, C> {
        TxArtifacts {
            tx_result: self.attempt->0.logs,
            tx_metrics: (e.metrics)(self.attempt->0.logs, true),
            bootloader_dry_run_metrics: (e.metrics)(self.block_tip.1, false),
            bootloader_dry_run_result: self.block_tip.1,
            compressed_bytecodes: self.bytecodes,
            call_tracer_result: self.attempt->0.calls,
        }
    }
}

/// How the handling of a command ended: the executor, the machine, and what
/// the last step asked for.
pub struct Run<S, R, B, C, T, X> {
    pub executor: ExecutorState,
    pub machine: Machine<S, R, B, C, X>,
    pub outcome: Outcome<T>,
}

/// How many reports a phase is away from rest, at most.
pub open spec fn reports_ahead(phase: Phase) -> nat {
    match phase {
        Phase::CompressionAttempt => 3,
        Phase::PlainAttempt => 2,
        Phase::DryRun => 1,
        _ => 0,
    }
}

/// The step that the executor takes on the report it waits for.
pub open spec fn resume<S, R, M, B, C, X>(
    x: ExecutorState,
    e: Engine<S, R, M, B, C, X>,
    m: Machine<S, R, B, C, X>,
) -> Transition<TxExecutionResult<R, M, B, C, X>> {
    if x.phase.awaits() is BlockTipDryRun {
        x.dryrun_block_tip(m.block_tip.0, m.artifacts(e))
    } else {
        x.execute_tx_in_vm(m.attempt_result())
    }
}

/// The host's loop while a transaction is handled: perform the actions of a
/// step, hand the report back, until a step asks for no report.
pub open spec fn drive<S, R, M, B, C, X>(
    e: Engine<S, R, M, B, C, X>,
    t: Transition<TxExecutionResult<R, M, B, C, X>>,
    m: Machine<S, R, B, C, X>,
) -> Run<S, R, B, C, TxExecutionResult<R, M, B, C, X>, X>
    decreases reports_ahead(t.next.phase),
{
    let after = m.perform_all(e, t.actions);
    if t.outcome is Report && reports_ahead(t.next.phase) > 0 {
        drive(e, resume(t.next, e, after), after)
    } else {
        Run { executor: t.next, machine: after, outcome: t.outcome }
    }
}

/// The whole handling of a command to execute a transaction.
pub open spec fn run_execute_tx<S, R, M, B, C, X>(
    x: ExecutorState,
    e: Engine<S, R, M, B, C, X>,
    m: Machine<S, R, B, C, X>,
    gas_limit: nat,
) -> Run<S, R, B, C, TxExecutionResult<R, M, B, C, X>, X> {
    drive(e, x.execute_tx(gas_limit), m)
}

/// The same handling with bytecode compression off from the start: the
/// transaction executed before is accepted, one snapshot is taken, and the
/// transaction runs once, without compression.
pub open spec fn run_execute_tx_plain<S, R, M, B, C, X>(
    x: ExecutorState,
    e: Engine<S, R, M, B, C, X>,
    m: Machine<S, R, B, C, X>,
) -> Run<S, R, B, C, TxExecutionResult<R, M, B, C, X>, X> {
    drive(
        e,
        Transition {
            next: x.at(Phase::PlainAttempt, 1),
            actions: x.accept_pending() + seq![
                Action::MakeSnapshot,
                Action::InspectTransaction {
                    with_compression: false,
                    trace_calls: x.save_call_traces,
                },
            ],
            outcome: Outcome::Report,
        },
        m,
    )
}

/// The whole handling of a command to finish the batch, `batch` being the
/// result that the machine hands out.
pub open spec fn run_finish_batch<S, R, M, B, C, F, X>(
    x: ExecutorState,
    e: Engine<S, R, M, B, C, X>,
    m: Machine<S, R, B, C, X>,
    batch: F,
) -> Run<S, R, B, C, F, X> {
    let asked = x.finish_batch::<F>();
    let after = m.perform_all(e, asked.actions);
    if asked.outcome is Report {
        let sealed = asked.next.batch_finished(after.batch, batch);
        Run {
            executor: sealed.next,
            machine: after.perform_all(e, sealed.actions),
            outcome: sealed.outcome,
        }
    } else {
        Run { executor: asked.next, machine: after, outcome: asked.outcome }
    }
}

} // verus!
