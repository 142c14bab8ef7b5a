//! What holds of every executor on every machine that keeps its snapshots
//! as a stack.

use crate::executor::{ExecutorState, Phase, Transition};
use crate::model::{
    drive, reports_ahead, run_execute_tx, run_execute_tx_plain, run_finish_batch, Engine, Machine,
    Run,
};
use crate::outcome::{ExecutionResult, Halt, TxArtifacts, TxExecutionResult};
use crate::protocol::{Action, CommandKind, Outcome, ProtocolError, Violation};
use vstd::prelude::*;

verus! {

proof fn lemma_perform_none<S, R, M, B, C, X>(m: Machine<S, R, B, C, X>, e: Engine<S, R, M, B, C, X>)
    ensures
        m.perform_all(e, Seq::empty()) == m,
{
}

proof fn lemma_perform_push<S, R, M, B, C, X>(m: Machine<S, R, B, C, X>, e: Engine<S, R, M, B, C, X>, actions: Seq<Action>, last: Action)
    ensures
        m.perform_all(e, actions.push(last)) == m.perform_all(e, actions).perform(e, last),
{
    assert(actions.push(last).drop_last() =~= actions);
}

proof fn lemma_perform_concat<S, R, M, B, C, X>(
    m: Machine<S, R, B, C, X>,
    e: Engine<S, R, M, B, C, X>,
    first: Seq<Action>,
    second: Seq<Action>,
)
    ensures
        m.perform_all(e, first + second) == m.perform_all(e, first).perform_all(e, second),
    decreases second.len(),
{
    if second.len() == 0 {
        assert(first + second =~= first);
    } else {
        lemma_perform_concat(m, e, first, second.drop_last());
        assert((first + second).drop_last() =~= first + second.drop_last());
    }
}

proof fn lemma_perform_one<S, R, M, B, C, X>(m: Machine<S, R, B, C, X>, e: Engine<S, R, M, B, C, X>, a: Action)
    ensures
        m.perform_all(e, seq![a]) == m.perform(e, a),
{
    assert(seq![a] =~= Seq::empty().push(a));
    lemma_perform_push(m, e, Seq::empty(), a);
}

proof fn lemma_perform_two<S, R, M, B, C, X>(m: Machine<S, R, B, C, X>, e: Engine<S, R, M, B, C, X>, a: Action, b: Action)
    ensures
        m.perform_all(e, seq![a, b]) == m.perform(e, a).perform(e, b),
{
    lemma_perform_one(m, e, a);
    assert(seq![a, b] =~= seq![a].push(b));
    lemma_perform_push(m, e, seq![a], b);
}

proof fn lemma_perform_three<S, R, M, B, C, X>(m: Machine<S, R, B, C, X>, e: Engine<S, R, M, B, C, X>, a: Action, b: Action, c: Action)
    ensures
        m.perform_all(e, seq![a, b, c]) == m.perform(e, a).perform(e, b).perform(e, c),
{
    lemma_perform_two(m, e, a, b);
    assert(seq![a, b, c] =~= seq![a, b].push(c));
    lemma_perform_push(m, e, seq![a, b], c);
}

/// The machine after the actions that accept a pending transaction.
proof fn lemma_accept_pending<S, R, M, B, C, X>(x: ExecutorState, m: Machine<S, R, B, C, X>, e: Engine<S, R, M, B, C, X>)
    ensures
        m.perform_all(e, x.accept_pending()) == if x.phase is TxPending {
            m.perform(e, Action::PopSnapshotNoRollback)
        } else {
            m
        },
{
    if x.phase is TxPending {
        lemma_perform_one(m, e, Action::PopSnapshotNoRollback);
    }
}

/// The machine after the first step of a transaction that is let in.
proof fn lemma_execute_tx_actions<S, R, M, B, C, X>(
    x: ExecutorState,
    m: Machine<S, R, B, C, X>,
    e: Engine<S, R, M, B, C, X>,
    gas_limit: nat,
)
    requires
        x.takes(CommandKind::ExecuteTx),
        gas_limit <= x.max_allowed_tx_gas_limit,
    ensures
        m.perform_all(e, x.execute_tx::<R, M, B, C, X>(gas_limit).actions) == m.perform_all(
            e,
            x.accept_pending(),
        ).perform(e, Action::MakeSnapshot).perform(e, Action::MakeSnapshot).perform(
            e,
            Action::InspectTransaction { with_compression: true, trace_calls: x.save_call_traces },
        ),
{
    let run = Action::InspectTransaction { with_compression: true, trace_calls: x.save_call_traces };
    lemma_perform_concat(
        m,
        e,
        x.accept_pending(),
        seq![Action::MakeSnapshot, Action::MakeSnapshot, run],
    );
    lemma_perform_three(
        m.perform_all(e, x.accept_pending()),
        e,
        Action::MakeSnapshot,
        Action::MakeSnapshot,
        run,
    );
}

/// The machine after the actions that follow an accepted run.
proof fn lemma_after_run_actions<S, R, M, B, C, X>(
    x: ExecutorState,
    m: Machine<S, R, B, C, X>,
    e: Engine<S, R, M, B, C, X>,
    result: ExecutionResult<X>,
    settle: Seq<Action>,
)
    ensures
        m.perform_all(e, x.after_run::<R, M, B, C, X>(result, settle).actions) == if result
            is Halt {
            m.perform_all(e, settle).perform(e, Action::RollbackToLatestSnapshot)
        } else {
            m.perform_all(e, settle).perform(e, Action::MakeSnapshot).perform(
                e,
                Action::ExecuteBlockTip,
            ).perform(e, Action::RollbackToLatestSnapshot)
        },
{
    let settled = m.perform_all(e, settle);
    if result is Halt {
        lemma_perform_concat(m, e, settle, seq![Action::RollbackToLatestSnapshot]);
        lemma_perform_one(settled, e, Action::RollbackToLatestSnapshot);
    } else {
        lemma_perform_concat(
            m,
            e,
            settle,
            seq![Action::MakeSnapshot, Action::ExecuteBlockTip, Action::RollbackToLatestSnapshot],
        );
        lemma_perform_three(
            settled,
            e,
            Action::MakeSnapshot,
            Action::ExecuteBlockTip,
            Action::RollbackToLatestSnapshot,
        );
    }
}

/// The machine after the step that follows the report of a run.
proof fn lemma_execute_tx_in_vm_actions<S, R, M, B, C, X>(
    x: ExecutorState,
    m: Machine<S, R, B, C, X>,
    e: Engine<S, R, M, B, C, X>,
    attempt: Option<ExecutionResult<X>>,
)
    ensures
        m.perform_all(e, x.execute_tx_in_vm::<R, M, B, C, X>(attempt).actions) == match (
            x.phase,
            attempt,
        ) {
            (Phase::CompressionAttempt, Some(result)) => {
                let settled = m.perform(e, Action::ReadCompressedBytecodes).perform(
                    e,
                    Action::PopSnapshotNoRollback,
                );
                if result is Halt {
                    settled.perform(e, Action::RollbackToLatestSnapshot)
                } else {
                    settled.perform(e, Action::MakeSnapshot).perform(
                        e,
                        Action::ExecuteBlockTip,
                    ).perform(e, Action::RollbackToLatestSnapshot)
                }
            },
            (Phase::CompressionAttempt, None) => m.perform(
                e,
                Action::RollbackToLatestSnapshot,
            ).perform(
                e,
                Action::InspectTransaction {
                    with_compression: false,
                    trace_calls: x.save_call_traces,
                },
            ),
            (Phase::PlainAttempt, Some(result)) => {
                let settled = m.perform(e, Action::ReadCompressedBytecodes);
                if result is Halt {
                    settled.perform(e, Action::RollbackToLatestSnapshot)
                } else {
                    settled.perform(e, Action::MakeSnapshot).perform(
                        e,
                        Action::ExecuteBlockTip,
                    ).perform(e, Action::RollbackToLatestSnapshot)
                }
            },
            _ => m,
        },
{
    match (x.phase, attempt) {
        (Phase::CompressionAttempt, Some(result)) => {
            let settle = seq![Action::ReadCompressedBytecodes, Action::PopSnapshotNoRollback];
            lemma_after_run_actions::<S, R, M, B, C, X>(x, m, e, result, settle);
            lemma_perform_two(
                m,
                e,
                Action::ReadCompressedBytecodes,
                Action::PopSnapshotNoRollback,
            );
        },
        (Phase::CompressionAttempt, None) => {
            lemma_perform_two(
                m,
                e,
                Action::RollbackToLatestSnapshot,
                Action::InspectTransaction {
                    with_compression: false,
                    trace_calls: x.save_call_traces,
                },
            );
        },
        (Phase::PlainAttempt, Some(result)) => {
            let settle = seq![Action::ReadCompressedBytecodes];
            lemma_after_run_actions::<S, R, M, B, C, X>(x, m, e, result, settle);
            lemma_perform_one(m, e, Action::ReadCompressedBytecodes);
        },
        _ => {},
    }
}

/// Every step leads from a well-formed executor to a well-formed one.
pub proof fn lemma_steps_stay_well_formed<R, M, B, C, F, X>(
    x: ExecutorState,
    gas_limit: nat,
    attempt: Option<ExecutionResult<X>>,
    report: ExecutionResult<X>,
    artifacts: TxArtifacts<R, M, B, C>,
    batch: F,
)
    requires
        x.wf(),
    ensures
        x.execute_tx::<R, M, B, C, X>(gas_limit).next.wf(),
        x.execute_tx_in_vm::<R, M, B, C, X>(attempt).next.wf(),
        x.dryrun_block_tip::<R, M, B, C, X>(report, artifacts).next.wf(),
        x.rollback_last_tx().next.wf(),
        x.start_next_miniblock().next.wf(),
        x.finish_batch::<F>().next.wf(),
        x.batch_finished(report, batch).next.wf(),
{
}

/// A step keeps the count: after its actions the machine holds the
/// snapshots that the executor counts, no action found the stack empty, and
/// the stack was never deeper than two.
pub open spec fn keeps_count<S, R, M, B, C, T, X>(m: Machine<S, R, B, C, X>, e: Engine<S, R, M, B, C, X>, t: Transition<T>) -> bool {
    let after = m.perform_all(e, t.actions);
    &&& after.serves(t.next)
    &&& after.peak <= if m.peak > 2 {
        m.peak
    } else {
        2
    }
}

/// Every step keeps the count, whatever the command or the report. At rest
/// the stack therefore holds no snapshot when the executor is idle and one
/// when a transaction is pending, before a command and after it.
pub proof fn lemma_steps_keep_count<S, R, M, B, C, F, X>(
    x: ExecutorState,
    m: Machine<S, R, B, C, X>,
    e: Engine<S, R, M, B, C, X>,
    gas_limit: nat,
    attempt: Option<ExecutionResult<X>>,
    report: ExecutionResult<X>,
    artifacts: TxArtifacts<R, M, B, C>,
    batch: F,
)
    requires
        m.serves(x),
    ensures
        keeps_count(m, e, x.execute_tx::<R, M, B, C, X>(gas_limit)),
        keeps_count(m, e, x.execute_tx_in_vm::<R, M, B, C, X>(attempt)),
        keeps_count(m, e, x.dryrun_block_tip::<R, M, B, C, X>(report, artifacts)),
        keeps_count(m, e, x.rollback_last_tx()),
        keeps_count(m, e, x.start_next_miniblock()),
        keeps_count(m, e, x.finish_batch::<F>()),
        keeps_count(m, e, x.batch_finished(report, batch)),
        x.phase is Idle ==> m.snapshots.len() == 0,
        x.phase is TxPending ==> m.snapshots.len() == 1,
{
    lemma_perform_none(m, e);
    lemma_accept_pending(x, m, e);
    if x.takes(CommandKind::ExecuteTx) && gas_limit <= x.max_allowed_tx_gas_limit {
        lemma_execute_tx_actions::<S, R, M, B, C, X>(x, m, e, gas_limit);
    }
    lemma_execute_tx_in_vm_actions::<S, R, M, B, C, X>(x, m, e, attempt);
    lemma_perform_one(m, e, Action::RollbackToLatestSnapshot);
    lemma_perform_one(m, e, Action::StartNewL2Block);
    lemma_perform_one(m, e, Action::FinishBatch);
    lemma_perform_one(m, e, Action::CaptureWitnessBlockState);
}

/// The machine after a whole handling of a transaction, by the way it went.
proof fn lemma_run_execute_tx<S, R, M, B, C, X>(
    x: ExecutorState,
    e: Engine<S, R, M, B, C, X>,
    m: Machine<S, R, B, C, X>,
    gas_limit: nat,
)
    requires
        m.serves(x),
        x.takes(CommandKind::ExecuteTx),
        gas_limit <= x.max_allowed_tx_gas_limit,
    ensures
        ({
            let run = run_execute_tx(x, e, m, gas_limit);
            let first = (e.inspect)(m.state, true, x.save_call_traces);
            let plain = (e.inspect)(m.state, false, x.save_call_traces);
            let accepted = if first.1 is Some {
                first
            } else {
                plain
            };
            let tip = (e.block_tip)(accepted.0);
            &&& !run.machine.underflowed
            &&& run.machine.attempt == accepted.1
            &&& run.machine.batch == m.batch
            &&& match accepted.1 {
                None => {
                    &&& run.outcome == Outcome::<TxExecutionResult<R, M, B, C, X>>::Abort(
                        Violation::CompressionFailedWithoutCompression,
                    )
                    &&& run.executor == x.at(Phase::Aborted, 1)
                    &&& run.machine.state == accepted.0
                    &&& run.machine.snapshots == seq![m.state]
                    &&& run.machine.bytecodes == m.bytecodes
                    &&& run.machine.block_tip == m.block_tip
                },
                Some(ran) => {
                    &&& run.machine.bytecodes == (e.published)(accepted.0)
                    &&& match ran.result {
                        ExecutionResult::Halt { reason } => {
                            &&& run.outcome == Outcome::Reply(
                                TxExecutionResult::<R, M, B, C, X>::halted(reason),
                            )
                            &&& run.executor == x.at(Phase::Idle, 0)
                            &&& run.machine.state == m.state
                            &&& run.machine.snapshots == Seq::<S>::empty()
                            &&& run.machine.block_tip == m.block_tip
                        },
                        _ => {
                            let artifacts = TxArtifacts {
                                tx_result: ran.logs,
                                tx_metrics: (e.metrics)(ran.logs, true),
                                bootloader_dry_run_metrics: (e.metrics)(tip.2, false),
                                bootloader_dry_run_result: tip.2,
                                compressed_bytecodes: (e.published)(accepted.0),
                                call_tracer_result: ran.calls,
                            };
                            let last = x.at(Phase::DryRun, 1).dryrun_block_tip::<R, M, B, C, X>(
                                tip.1,
                                artifacts,
                            );
                            &&& run.machine.state == accepted.0
                            &&& run.machine.snapshots == seq![m.state]
                            &&& run.machine.block_tip == (tip.1, tip.2)
                            &&& run.outcome == last.outcome
                            &&& run.executor == last.next
                        },
                    }
                },
            }
        }),
{
    reveal_with_fuel(drive, 4);
    let t1 = x.execute_tx::<R, M, B, C, X>(gas_limit);
    lemma_accept_pending(x, m, e);
    lemma_execute_tx_actions::<S, R, M, B, C, X>(x, m, e, gas_limit);
    let base = m.perform_all(e, x.accept_pending());
    let m1 = m.perform_all(e, t1.actions);
    assert(base.snapshots =~= Seq::<S>::empty());
    assert(m1.snapshots =~= seq![m.state, m.state]);
    let t2 = t1.next.execute_tx_in_vm::<R, M, B, C, X>(m1.attempt_result());
    lemma_execute_tx_in_vm_actions::<S, R, M, B, C, X>(t1.next, m1, e, m1.attempt_result());
    let m2 = m1.perform_all(e, t2.actions);
    lemma_perform_none(m2, e);
    if m1.attempt is None {
        assert(m2.snapshots =~= seq![m.state]);
        let t3 = t2.next.execute_tx_in_vm::<R, M, B, C, X>(m2.attempt_result());
        lemma_execute_tx_in_vm_actions::<S, R, M, B, C, X>(t2.next, m2, e, m2.attempt_result());
        let m3 = m2.perform_all(e, t3.actions);
        lemma_perform_none(m3, e);
        if m2.attempt is Some {
            if m2.attempt->0.result is Halt {
                assert(m3.snapshots =~= Seq::<S>::empty());
            } else {
                assert(m3.snapshots =~= seq![m.state]);
            }
        }
    } else {
        if m1.attempt->0.result is Halt {
            assert(m2.snapshots =~= Seq::<S>::empty());
        } else {
            assert(m2.snapshots =~= seq![m.state]);
        }
    }
}

/// The machine after a handling that does nothing: the command is out of
/// order, or the transaction is over the gas limit.
proof fn lemma_run_without_actions<S, R, M, B, C, X>(
    x: ExecutorState,
    e: Engine<S, R, M, B, C, X>,
    m: Machine<S, R, B, C, X>,
    gas_limit: nat,
)
    requires
        !x.takes(CommandKind::ExecuteTx) || gas_limit > x.max_allowed_tx_gas_limit,
        reports_ahead(x.phase) == 0,
    ensures
        run_execute_tx(x, e, m, gas_limit) == (Run {
            executor: x,
            machine: m,
            outcome: x.execute_tx::<R, M, B, C, X>(gas_limit).outcome,
        }),
        !(x.execute_tx::<R, M, B, C, X>(gas_limit).outcome is Report),
{
    reveal_with_fuel(drive, 1);
    lemma_perform_none(m, e);
}

/// A command to execute a transaction ends, on every machine, with the
/// snapshots that the executor counts: none when it is idle, one when a
/// transaction is pending. Given at rest, it ends at rest unless the machine
/// broke its contract, and a handling that leaves the executor as idle or
/// as pending as it found it leaves the stack as deep as it found it.
pub proof fn lemma_execute_tx_is_neutral<S, R, M, B, C, X>(
    x: ExecutorState,
    e: Engine<S, R, M, B, C, X>,
    m: Machine<S, R, B, C, X>,
    gas_limit: nat,
)
    requires
        m.serves(x),
        x.phase.resting(),
    ensures
        ({
            let run = run_execute_tx(x, e, m, gas_limit);
            &&& run.machine.serves(run.executor)
            &&& !(run.outcome is Report)
            &&& run.outcome is Abort || run.executor.phase.resting()
            &&& run.executor.phase is Idle ==> run.machine.snapshots.len() == 0
            &&& run.executor.phase is TxPending ==> run.machine.snapshots.len() == 1
            &&& (run.executor.phase is Idle <==> x.phase is Idle) && !(run.outcome is Abort)
                ==> run.machine.snapshots.len() == m.snapshots.len()
        }),
{
    if x.takes(CommandKind::ExecuteTx) && gas_limit <= x.max_allowed_tx_gas_limit {
        lemma_run_execute_tx(x, e, m, gas_limit);
    } else {
        lemma_run_without_actions(x, e, m, gas_limit);
    }
}

/// A transaction that is rejected, or that finds the bootloader out of gas,
/// leaves the machine's state as the command found it, whatever the machine
/// did with the transaction meanwhile, and leaves no snapshot of its own.
pub proof fn lemma_rejected_tx_leaves_state<S, R, M, B, C, X>(
    x: ExecutorState,
    e: Engine<S, R, M, B, C, X>,
    m: Machine<S, R, B, C, X>,
    gas_limit: nat,
)
    requires
        m.serves(x),
        x.phase.resting(),
    ensures
        ({
            let run = run_execute_tx(x, e, m, gas_limit);
            run.outcome matches Outcome::Reply(reply) && (reply is RejectedByVm || reply
                is BootloaderOutOfGasForTx) ==> {
                &&& run.machine.state == m.state
                &&& run.executor.phase is Idle && run.machine.snapshots.len() == 0 || run.executor
                    == x && run.machine == m
            }
        }),
{
    if x.takes(CommandKind::ExecuteTx) && gas_limit <= x.max_allowed_tx_gas_limit {
        lemma_run_execute_tx(x, e, m, gas_limit);
    } else {
        lemma_run_without_actions(x, e, m, gas_limit);
    }
}

/// A transaction over the gas limit is rejected without a single action: the
/// machine is not touched and the executor stays as it was.
pub proof fn lemma_gas_gate<S, R, M, B, C, X>(
    x: ExecutorState,
    e: Engine<S, R, M, B, C, X>,
    m: Machine<S, R, B, C, X>,
    gas_limit: nat,
)
    requires
        x.phase.resting(),
        gas_limit > x.max_allowed_tx_gas_limit,
    ensures
        x.execute_tx::<R, M, B, C, X>(gas_limit).actions.len() == 0,
        run_execute_tx(x, e, m, gas_limit) == (Run {
            executor: x,
            machine: m,
            outcome: Outcome::<TxExecutionResult<R, M, B, C, X>>::Reply(
                TxExecutionResult::RejectedByVm { reason: Halt::TooBigGasLimit },
            ),
        }),
{
    lemma_run_without_actions(x, e, m, gas_limit);
}

/// Where the run with bytecode compression fails, the retry cannot be told
/// from a handling that never tried compression: the same reply, with the
/// same compressed bytecodes in it, the same executor, the same state of the
/// machine and the same snapshots.
pub proof fn lemma_compression_retry_is_invisible<S, R, M, B, C, X>(
    x: ExecutorState,
    e: Engine<S, R, M, B, C, X>,
    m: Machine<S, R, B, C, X>,
    gas_limit: nat,
)
    requires
        m.serves(x),
        x.takes(CommandKind::ExecuteTx),
        gas_limit <= x.max_allowed_tx_gas_limit,
        (e.inspect)(m.state, true, x.save_call_traces).1 is None,
    ensures
        ({
            let retried = run_execute_tx(x, e, m, gas_limit);
            let plain = run_execute_tx_plain(x, e, m);
            &&& retried.outcome == plain.outcome
            &&& retried.executor == plain.executor
            &&& retried.machine.state == plain.machine.state
            &&& retried.machine.snapshots == plain.machine.snapshots
            &&& retried.machine.attempt == plain.machine.attempt
            &&& retried.machine.bytecodes == plain.machine.bytecodes
            &&& retried.machine.block_tip == plain.machine.block_tip
        }),
{
    lemma_run_execute_tx(x, e, m, gas_limit);
    reveal_with_fuel(drive, 3);
    lemma_accept_pending(x, m, e);
    let base = m.perform_all(e, x.accept_pending());
    let run = Action::InspectTransaction { with_compression: false, trace_calls: x.save_call_traces };
    lemma_perform_concat(m, e, x.accept_pending(), seq![Action::MakeSnapshot, run]);
    lemma_perform_two(base, e, Action::MakeSnapshot, run);
    let m1 = m.perform_all(e, x.accept_pending() + seq![Action::MakeSnapshot, run]);
    assert(base.snapshots =~= Seq::<S>::empty());
    assert(m1.snapshots =~= seq![m.state]);
    let x1 = x.at(Phase::PlainAttempt, 1);
    let t2 = x1.execute_tx_in_vm::<R, M, B, C, X>(m1.attempt_result());
    lemma_execute_tx_in_vm_actions::<S, R, M, B, C, X>(x1, m1, e, m1.attempt_result());
    let m2 = m1.perform_all(e, t2.actions);
    lemma_perform_none(m2, e);
    if m1.attempt is Some {
        if m1.attempt->0.result is Halt {
            assert(m2.snapshots =~= Seq::<S>::empty());
        } else {
            assert(m2.snapshots =~= seq![m.state]);
        }
    }
}

/// A reply of success carries what the accepted run and the dry run handed
/// out: the result-and-logs of each, the metrics of each, the bytecodes that
/// the machine had published when the accepted run ended, and the calls that
/// the tracer collected in that run.
pub proof fn lemma_success_carries_the_accepted_run<S, R, M, B, C, X>(
    x: ExecutorState,
    e: Engine<S, R, M, B, C, X>,
    m: Machine<S, R, B, C, X>,
    gas_limit: nat,
)
    requires
        m.serves(x),
        x.phase.resting(),
    ensures
        ({
            let run = run_execute_tx(x, e, m, gas_limit);
            let first = (e.inspect)(m.state, true, x.save_call_traces);
            let accepted = if first.1 is Some {
                first
            } else {
                (e.inspect)(m.state, false, x.save_call_traces)
            };
            let tip = (e.block_tip)(accepted.0);
            run.outcome matches Outcome::Reply(reply) ==> (reply is Success ==> {
                &&& accepted.1 matches Some(ran)
                &&& !(ran.result is Halt)
                &&& tip.1 is Success
                &&& reply == TxExecutionResult::<R, M, B, C, X>::success(
                    TxArtifacts {
                        tx_result: ran.logs,
                        tx_metrics: (e.metrics)(ran.logs, true),
                        bootloader_dry_run_metrics: (e.metrics)(tip.2, false),
                        bootloader_dry_run_result: tip.2,
                        compressed_bytecodes: (e.published)(accepted.0),
                        call_tracer_result: ran.calls,
                    },
                )
            })
        }),
{
    if x.takes(CommandKind::ExecuteTx) && gas_limit <= x.max_allowed_tx_gas_limit {
        lemma_run_execute_tx(x, e, m, gas_limit);
    } else {
        lemma_run_without_actions(x, e, m, gas_limit);
    }
}

/// The call trace of a reply is empty unless the executor saves call
/// traces, on every machine whose tracer collects calls only when attached.
pub proof fn lemma_no_trace_unless_asked<S, R, M, B, C, X>(
    x: ExecutorState,
    e: Engine<S, R, M, B, C, X>,
    m: Machine<S, R, B, C, X>,
    gas_limit: nat,
)
    requires
        m.serves(x),
        x.phase.resting(),
        !x.save_call_traces,
        e.traces_on_request_only(),
    ensures
        ({
            let run = run_execute_tx(x, e, m, gas_limit);
            run.outcome matches Outcome::Reply(TxExecutionResult::Success { call_tracer_result, .. })
                ==> call_tracer_result@.len() == 0
        }),
{
    lemma_success_carries_the_accepted_run(x, e, m, gas_limit);
    let first = (e.inspect)(m.state, true, false);
    let plain = (e.inspect)(m.state, false, false);
}

/// The dry run of the block tip leaves no trace: after a reply of success,
/// or of a block tip out of gas, the machine is in the state that the
/// accepted run of the transaction left, and the one snapshot on the stack
/// holds the state from before the transaction.
pub proof fn lemma_dry_run_leaves_no_trace<S, R, M, B, C, X>(
    x: ExecutorState,
    e: Engine<S, R, M, B, C, X>,
    m: Machine<S, R, B, C, X>,
    gas_limit: nat,
)
    requires
        m.serves(x),
        x.phase.resting(),
    ensures
        ({
            let run = run_execute_tx(x, e, m, gas_limit);
            let with_compression = (e.inspect)(m.state, true, x.save_call_traces).1 is Some;
            run.outcome matches Outcome::Reply(reply) && (reply is Success || reply
                is BootloaderOutOfGasForBlockTip) ==> {
                &&& run.machine.state == (e.inspect)(
                    m.state,
                    with_compression,
                    x.save_call_traces,
                ).0
                &&& run.machine.snapshots == seq![m.state]
                &&& run.executor.phase is TxPending
            }
        }),
{
    if x.takes(CommandKind::ExecuteTx) && gas_limit <= x.max_allowed_tx_gas_limit {
        lemma_run_execute_tx(x, e, m, gas_limit);
    } else {
        lemma_run_without_actions(x, e, m, gas_limit);
    }
}

/// A rollback undoes exactly the last transaction: after a transaction that
/// ran, the command to roll it back leaves the machine in the state from
/// before the transaction, with no snapshot, and the executor idle.
pub proof fn lemma_rollback_undoes_tx<S, R, M, B, C, X>(
    x: ExecutorState,
    e: Engine<S, R, M, B, C, X>,
    m: Machine<S, R, B, C, X>,
    gas_limit: nat,
)
    requires
        m.serves(x),
        x.phase.resting(),
    ensures
        ({
            let run = run_execute_tx(x, e, m, gas_limit);
            let back = run.executor.rollback_last_tx();
            let after = run.machine.perform_all(e, back.actions);
            run.outcome matches Outcome::Reply(reply) && (reply is Success || reply
                is BootloaderOutOfGasForBlockTip) ==> {
                &&& back.outcome == Outcome::Reply(())
                &&& back.next.phase is Idle
                &&& after.state == m.state
                &&& after.snapshots.len() == 0
                &&& !after.underflowed
            }
        }),
{
    if x.takes(CommandKind::ExecuteTx) && gas_limit <= x.max_allowed_tx_gas_limit {
        lemma_run_execute_tx(x, e, m, gas_limit);
        let run = run_execute_tx(x, e, m, gas_limit);
        lemma_perform_one(run.machine, e, Action::RollbackToLatestSnapshot);
    } else {
        lemma_run_without_actions(x, e, m, gas_limit);
    }
}

/// The command to start the next sub-block touches no snapshot: it moves
/// the machine on and leaves the stack as it is. After it, no rollback is
/// in order.
pub proof fn lemma_next_miniblock_keeps_the_stack<S, R, M, B, C, X>(
    x: ExecutorState,
    e: Engine<S, R, M, B, C, X>,
    m: Machine<S, R, B, C, X>,
)
    requires
        x.takes(CommandKind::StartNextMiniblock),
    ensures
        m.perform_all(e, x.start_next_miniblock().actions).state == (e.start_block)(m.state),
        m.perform_all(e, x.start_next_miniblock().actions).snapshots == m.snapshots,
        x.start_next_miniblock().next.phase is Idle <==> x.phase is Idle,
        x.start_next_miniblock().next.refusal(CommandKind::RollbackLastTx) == Some(
            ProtocolError::NothingToRollBack,
        ),
{
    lemma_perform_one(m, e, Action::StartNewL2Block);
}

/// Commands are handled one at a time: while one waits for a report, every
/// other is turned down and changes nothing.
pub proof fn lemma_one_command_at_a_time(x: ExecutorState, command: CommandKind)
    requires
        !(x.phase.awaits() is Nothing),
    ensures
        x.refusal(command) == Some(ProtocolError::CommandInFlight),
        x.refuse::<()>(ProtocolError::CommandInFlight).next == x,
        x.refuse::<()>(ProtocolError::CommandInFlight).actions.len() == 0,
{
}

/// An executor runs one batch: once the batch is finished it turns every
/// command down, asks for nothing and stays finished.
pub proof fn lemma_finished_executor_takes_no_command<R, M, B, C, F, X>(
    x: ExecutorState,
    command: CommandKind,
    gas_limit: nat,
)
    requires
        x.phase is Finished,
    ensures
        x.refusal(command) == Some(ProtocolError::BatchFinished),
        x.execute_tx::<R, M, B, C, X>(gas_limit) == x.refuse::<TxExecutionResult<R, M, B, C, X>>(
            ProtocolError::BatchFinished,
        ),
        x.rollback_last_tx() == x.refuse::<()>(ProtocolError::BatchFinished),
        x.start_next_miniblock() == x.refuse::<()>(ProtocolError::BatchFinished),
        x.finish_batch::<F>() == x.refuse::<F>(ProtocolError::BatchFinished),
        x.refuse::<F>(ProtocolError::BatchFinished).next == x,
        x.refuse::<F>(ProtocolError::BatchFinished).actions.len() == 0,
{
}

/// The command to finish the batch ends, on every machine, in one of two
/// ways. Where the block tip of the batch did not fail, the reply is the
/// machine's batch result, the executor is finished, and the witness block
/// state has been captured if and only if the executor uploads witness
/// inputs. Where it failed, the handling aborts and there is no reply.
pub proof fn lemma_finish_batch<S, R, M, B, C, F, X>(
    x: ExecutorState,
    e: Engine<S, R, M, B, C, X>,
    m: Machine<S, R, B, C, X>,
    batch: F,
)
    requires
        m.serves(x),
        x.takes(CommandKind::FinishBatch),
    ensures
        ({
            let run = run_finish_batch(x, e, m, batch);
            let sealed = x.at(Phase::Finishing, x.snapshots).batch_finished(
                (e.finish)(m.state).1,
                batch,
            );
            &&& run.machine.state == (e.finish)(m.state).0
            &&& run.machine.snapshots == m.snapshots
            &&& run.outcome == sealed.outcome
            &&& if (e.finish)(m.state).1.is_failed() {
                &&& run.outcome == Outcome::<F>::Abort(Violation::BatchBlockTipFailed)
                &&& run.executor.phase is Aborted
            } else {
                &&& run.outcome == Outcome::Reply(batch)
                &&& run.executor.phase is Finished
                &&& sealed.actions.contains(Action::CaptureWitnessBlockState)
                    <==> x.upload_witness_inputs_to_gcs
            }
        }),
{
    lemma_perform_one(m, e, Action::FinishBatch);
    let after = m.perform(e, Action::FinishBatch);
    lemma_perform_none(after, e);
    lemma_perform_one(after, e, Action::CaptureWitnessBlockState);
    if x.upload_witness_inputs_to_gcs {
        assert(seq![Action::CaptureWitnessBlockState][0] == Action::CaptureWitnessBlockState);
    }
}

} // verus!
