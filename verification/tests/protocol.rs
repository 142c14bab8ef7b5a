use batch_executor::builder::MainBatchExecutorBuilder;
use batch_executor::executor::{Awaited, BatchExecutor, Phase, Standing};
use batch_executor::gas::U256;
use batch_executor::outcome::{ExecutionResult, Halt, TxArtifacts, TxExecutionResult};
use batch_executor::protocol::{Action, CommandKind, Outcome, ProtocolError, Step, Violation};

type Reply = TxExecutionResult<&'static str, u64, u8, &'static str, &'static str>;
type TxStep = Step<Reply>;

fn executor(save_call_traces: bool, upload_witness: bool) -> BatchExecutor {
    BatchExecutor::new(save_call_traces, U256::from_u64(10_000_000), upload_witness)
}

fn gas(x: u64) -> U256 {
    U256::from_u64(x)
}

fn artifacts() -> TxArtifacts<&'static str, u64, u8, &'static str> {
    TxArtifacts {
        tx_result: "tx",
        tx_metrics: 11,
        bootloader_dry_run_metrics: 22,
        bootloader_dry_run_result: "tip",
        compressed_bytecodes: vec![7, 8],
        call_tracer_result: vec!["call"],
    }
}

fn inspect(with_compression: bool, trace_calls: bool) -> Action {
    Action::InspectTransaction { with_compression, trace_calls }
}

/// Takes an idle executor through a successful transaction.
fn pending(x: &mut BatchExecutor) {
    let _: TxStep = x.execute_tx(&gas(1));
    let _: TxStep = x.execute_tx_in_vm(Some(ExecutionResult::Success));
    let _: TxStep = x.dryrun_block_tip(ExecutionResult::Success, artifacts());
    assert_eq!(x.phase(), Phase::TxPending { standing: Standing::Revocable });
}

#[test]
fn a_new_executor_is_idle() {
    let x = executor(false, false);
    assert_eq!(x.phase(), Phase::Idle);
    assert_eq!(x.snapshots(), 0);
}

#[test]
fn execute_tx_takes_two_snapshots_and_runs_with_compression() {
    let mut x = executor(false, false);
    let step: TxStep = x.execute_tx(&gas(5));
    assert_eq!(
        step.actions,
        vec![Action::MakeSnapshot, Action::MakeSnapshot, inspect(true, false)]
    );
    assert_eq!(step.outcome, Outcome::Report);
    assert_eq!(x.phase(), Phase::CompressionAttempt);
    assert_eq!(x.snapshots(), 2);
}

#[test]
fn execute_tx_attaches_the_tracer_when_asked() {
    let mut x = executor(true, false);
    let step: TxStep = x.execute_tx(&gas(5));
    assert_eq!(
        step.actions,
        vec![Action::MakeSnapshot, Action::MakeSnapshot, inspect(true, true)]
    );
    let step: TxStep = x.execute_tx_in_vm(None);
    assert_eq!(step.actions, vec![Action::RollbackToLatestSnapshot, inspect(false, true)]);
}

#[test]
fn gas_limit_at_the_maximum_is_let_in() {
    let mut x = executor(false, false);
    let step: TxStep = x.execute_tx(&gas(10_000_000));
    assert_eq!(step.outcome, Outcome::Report);
    assert_eq!(x.phase(), Phase::CompressionAttempt);
}

#[test]
fn gas_limit_over_the_maximum_is_rejected_untouched() {
    let mut x = executor(false, false);
    let step: TxStep = x.execute_tx(&gas(10_000_001));
    assert_eq!(
        step.outcome,
        Outcome::Reply(TxExecutionResult::RejectedByVm { reason: Halt::TooBigGasLimit })
    );
    assert!(step.actions.is_empty());
    assert_eq!(x.phase(), Phase::Idle);
    assert_eq!(x.snapshots(), 0);
}

#[test]
fn gas_limit_over_the_maximum_keeps_a_pending_transaction() {
    let mut x = executor(false, false);
    pending(&mut x);
    let step: TxStep = x.execute_tx(&U256([0, 1, 0, 0]));
    assert_eq!(
        step.outcome,
        Outcome::Reply(TxExecutionResult::RejectedByVm { reason: Halt::TooBigGasLimit })
    );
    assert!(step.actions.is_empty());
    assert_eq!(x.phase(), Phase::TxPending { standing: Standing::Revocable });
    assert_eq!(x.snapshots(), 1);
}

#[test]
fn the_builder_hands_its_gas_limit_on() {
    let builder = MainBatchExecutorBuilder::new(String::new(), gas(100), false, false);
    let mut x = builder.init_batch();
    let step: TxStep = x.execute_tx(&gas(101));
    assert_eq!(
        step.outcome,
        Outcome::Reply(TxExecutionResult::RejectedByVm { reason: Halt::TooBigGasLimit })
    );
    let step: TxStep = x.execute_tx(&gas(100));
    assert_eq!(step.outcome, Outcome::Report);
}

#[test]
fn accepted_run_goes_on_to_the_dry_run() {
    for result in [ExecutionResult::Success, ExecutionResult::Revert] {
        let mut x = executor(false, false);
        let _: TxStep = x.execute_tx(&gas(5));
        let step: TxStep = x.execute_tx_in_vm(Some(result));
        assert_eq!(
            step.actions,
            vec![
                Action::ReadCompressedBytecodes,
                Action::PopSnapshotNoRollback,
                Action::MakeSnapshot,
                Action::ExecuteBlockTip,
                Action::RollbackToLatestSnapshot,
            ]
        );
        assert_eq!(step.outcome, Outcome::Report);
        assert_eq!(x.phase(), Phase::DryRun);
        assert_eq!(x.snapshots(), 1);
    }
}

#[test]
fn halted_run_is_undone_and_rejected() {
    let mut x = executor(false, false);
    let _: TxStep = x.execute_tx(&gas(5));
    let step: TxStep =
        x.execute_tx_in_vm(Some(ExecutionResult::Halt { reason: Halt::Other("InvalidSignature") }));
    assert_eq!(
        step.actions,
        vec![
            Action::ReadCompressedBytecodes,
            Action::PopSnapshotNoRollback,
            Action::RollbackToLatestSnapshot,
        ]
    );
    assert_eq!(
        step.outcome,
        Outcome::Reply(TxExecutionResult::RejectedByVm { reason: Halt::Other("InvalidSignature") })
    );
    assert_eq!(x.phase(), Phase::Idle);
    assert_eq!(x.snapshots(), 0);
}

#[test]
fn bootloader_out_of_gas_in_the_run_is_out_of_gas_for_tx() {
    let mut x = executor(false, false);
    let _: TxStep = x.execute_tx(&gas(5));
    let step: TxStep =
        x.execute_tx_in_vm(Some(ExecutionResult::Halt { reason: Halt::BootloaderOutOfGas }));
    assert_eq!(step.outcome, Outcome::Reply(TxExecutionResult::BootloaderOutOfGasForTx));
    assert_eq!(x.phase(), Phase::Idle);
}

#[test]
fn too_big_gas_limit_from_the_machine_is_a_rejection() {
    let mut x = executor(false, false);
    let _: TxStep = x.execute_tx(&gas(5));
    let step: TxStep =
        x.execute_tx_in_vm(Some(ExecutionResult::Halt { reason: Halt::TooBigGasLimit }));
    assert_eq!(
        step.outcome,
        Outcome::Reply(TxExecutionResult::RejectedByVm { reason: Halt::TooBigGasLimit })
    );
}

#[test]
fn failed_compression_is_undone_and_retried_without() {
    let mut x = executor(false, false);
    let _: TxStep = x.execute_tx(&gas(5));
    let step: TxStep = x.execute_tx_in_vm(None);
    assert_eq!(step.actions, vec![Action::RollbackToLatestSnapshot, inspect(false, false)]);
    assert_eq!(step.outcome, Outcome::Report);
    assert_eq!(x.phase(), Phase::PlainAttempt);
    assert_eq!(x.snapshots(), 1);

    let step: TxStep = x.execute_tx_in_vm(Some(ExecutionResult::Success));
    assert_eq!(
        step.actions,
        vec![
            Action::ReadCompressedBytecodes,
            Action::MakeSnapshot,
            Action::ExecuteBlockTip,
            Action::RollbackToLatestSnapshot,
        ]
    );
    assert_eq!(step.outcome, Outcome::Report);
    assert_eq!(x.phase(), Phase::DryRun);
}

#[test]
fn halted_retry_is_undone_and_rejected() {
    let mut x = executor(false, false);
    let _: TxStep = x.execute_tx(&gas(5));
    let _: TxStep = x.execute_tx_in_vm(None);
    let step: TxStep =
        x.execute_tx_in_vm(Some(ExecutionResult::Halt { reason: Halt::Other("PayForTxFailed") }));
    assert_eq!(
        step.actions,
        vec![Action::ReadCompressedBytecodes, Action::RollbackToLatestSnapshot]
    );
    assert_eq!(
        step.outcome,
        Outcome::Reply(TxExecutionResult::RejectedByVm { reason: Halt::Other("PayForTxFailed") })
    );
    assert_eq!(x.phase(), Phase::Idle);
    assert_eq!(x.snapshots(), 0);
}

#[test]
fn failed_compression_without_compression_aborts() {
    let mut x = executor(false, false);
    let _: TxStep = x.execute_tx(&gas(5));
    let _: TxStep = x.execute_tx_in_vm(None);
    let step: TxStep = x.execute_tx_in_vm(None);
    assert_eq!(step.outcome, Outcome::Abort(Violation::CompressionFailedWithoutCompression));
    assert!(step.actions.is_empty());
    assert_eq!(x.phase(), Phase::Aborted);
}

#[test]
fn successful_dry_run_replies_success_with_the_artifacts() {
    let mut x = executor(false, false);
    let _: TxStep = x.execute_tx(&gas(5));
    let _: TxStep = x.execute_tx_in_vm(Some(ExecutionResult::Revert));
    let step: TxStep = x.dryrun_block_tip(ExecutionResult::Success, artifacts());
    assert!(step.actions.is_empty());
    assert_eq!(
        step.outcome,
        Outcome::Reply(TxExecutionResult::Success {
            tx_result: "tx",
            tx_metrics: 11,
            bootloader_dry_run_metrics: 22,
            bootloader_dry_run_result: "tip",
            compressed_bytecodes: vec![7, 8],
            call_tracer_result: vec!["call"],
        })
    );
    assert_eq!(x.phase(), Phase::TxPending { standing: Standing::Revocable });
    assert_eq!(x.snapshots(), 1);
}

#[test]
fn dry_run_out_of_gas_is_out_of_gas_for_block_tip() {
    let mut x = executor(false, false);
    let _: TxStep = x.execute_tx(&gas(5));
    let _: TxStep = x.execute_tx_in_vm(Some(ExecutionResult::Success));
    let step: TxStep = x.dryrun_block_tip(
        ExecutionResult::Halt { reason: Halt::BootloaderOutOfGas },
        artifacts(),
    );
    assert!(step.actions.is_empty());
    assert_eq!(step.outcome, Outcome::Reply(TxExecutionResult::BootloaderOutOfGasForBlockTip));
    assert_eq!(x.phase(), Phase::TxPending { standing: Standing::MustRevoke });
    assert_eq!(x.snapshots(), 1);
}

/// Takes an idle executor through a transaction that leaves no gas for the
/// block tip.
fn out_of_gas_for_block_tip(x: &mut BatchExecutor) {
    let _: TxStep = x.execute_tx(&gas(1));
    let _: TxStep = x.execute_tx_in_vm(Some(ExecutionResult::Success));
    let _: TxStep = x.dryrun_block_tip(
        ExecutionResult::Halt { reason: Halt::BootloaderOutOfGas },
        artifacts(),
    );
}

#[test]
fn after_a_block_tip_out_of_gas_only_a_rollback_is_taken() {
    let mut x = executor(false, false);
    out_of_gas_for_block_tip(&mut x);
    let step: TxStep = x.execute_tx(&gas(1));
    assert_eq!(step.outcome, Outcome::Refused(ProtocolError::RollbackRequired));
    assert!(step.actions.is_empty());
    // The gas gate still answers, and changes nothing.
    let step: TxStep = x.execute_tx(&gas(u64::MAX));
    assert_eq!(
        step.outcome,
        Outcome::Reply(TxExecutionResult::RejectedByVm { reason: Halt::TooBigGasLimit })
    );
    assert!(step.actions.is_empty());
    let step = x.start_next_miniblock();
    assert_eq!(step.outcome, Outcome::Refused(ProtocolError::RollbackRequired));
    assert!(step.actions.is_empty());
    let step: Step<&'static str> = x.finish_batch();
    assert_eq!(step.outcome, Outcome::Refused(ProtocolError::RollbackRequired));
    assert!(step.actions.is_empty());
    assert_eq!(x.phase(), Phase::TxPending { standing: Standing::MustRevoke });
    assert_eq!(x.snapshots(), 1);

    let step = x.rollback_last_tx();
    assert_eq!(step.actions, vec![Action::RollbackToLatestSnapshot]);
    assert_eq!(step.outcome, Outcome::Reply(()));
    assert_eq!(x.phase(), Phase::Idle);
    let step: Step<&'static str> = x.finish_batch();
    assert_eq!(step.outcome, Outcome::Report);
}

#[test]
fn refusal_says_which_commands_are_in_order() {
    let all = [
        CommandKind::ExecuteTx,
        CommandKind::StartNextMiniblock,
        CommandKind::RollbackLastTx,
        CommandKind::FinishBatch,
    ];
    let mut x = executor(false, false);
    for command in all {
        let expected = if command == CommandKind::RollbackLastTx {
            Some(ProtocolError::NothingToRollBack)
        } else {
            None
        };
        assert_eq!(x.refusal(command), expected);
    }
    pending(&mut x);
    for command in all {
        assert_eq!(x.refusal(command), None);
    }
    let _ = x.start_next_miniblock();
    for command in all {
        let expected = if command == CommandKind::RollbackLastTx {
            Some(ProtocolError::NothingToRollBack)
        } else {
            None
        };
        assert_eq!(x.refusal(command), expected);
    }
    let mut x = executor(false, false);
    out_of_gas_for_block_tip(&mut x);
    for command in all {
        let expected = if command == CommandKind::RollbackLastTx {
            None
        } else {
            Some(ProtocolError::RollbackRequired)
        };
        assert_eq!(x.refusal(command), expected);
    }
    let mut x = executor(false, false);
    let _: TxStep = x.execute_tx(&gas(1));
    for command in all {
        assert_eq!(x.refusal(command), Some(ProtocolError::CommandInFlight));
    }
}

#[test]
fn dry_run_that_reverts_or_halts_otherwise_aborts() {
    let reports = [
        ExecutionResult::Revert,
        ExecutionResult::Halt { reason: Halt::TooBigGasLimit },
        ExecutionResult::Halt { reason: Halt::Other("VMPanic") },
    ];
    for report in reports {
        let mut x = executor(false, false);
        let _: TxStep = x.execute_tx(&gas(5));
        let _: TxStep = x.execute_tx_in_vm(Some(ExecutionResult::Success));
        let step: TxStep = x.dryrun_block_tip(report, artifacts());
        assert_eq!(step.outcome, Outcome::Abort(Violation::BlockTipDryRunFailed));
        assert!(step.actions.is_empty());
        assert_eq!(x.phase(), Phase::Aborted);
    }
}

#[test]
fn next_transaction_accepts_the_pending_one() {
    let mut x = executor(false, false);
    pending(&mut x);
    let step: TxStep = x.execute_tx(&gas(5));
    assert_eq!(
        step.actions,
        vec![
            Action::PopSnapshotNoRollback,
            Action::MakeSnapshot,
            Action::MakeSnapshot,
            inspect(true, false),
        ]
    );
    assert_eq!(x.phase(), Phase::CompressionAttempt);
    assert_eq!(x.snapshots(), 2);
}

#[test]
fn rollback_restores_the_snapshot_of_the_pending_transaction() {
    let mut x = executor(false, false);
    pending(&mut x);
    let step = x.rollback_last_tx();
    assert_eq!(step.actions, vec![Action::RollbackToLatestSnapshot]);
    assert_eq!(step.outcome, Outcome::Reply(()));
    assert_eq!(x.phase(), Phase::Idle);
    assert_eq!(x.snapshots(), 0);
}

#[test]
fn rollback_with_nothing_pending_is_refused() {
    let mut x = executor(false, false);
    let step = x.rollback_last_tx();
    assert!(step.actions.is_empty());
    assert_eq!(step.outcome, Outcome::Refused(ProtocolError::NothingToRollBack));
    assert_eq!(x.phase(), Phase::Idle);

    // A rejected transaction leaves nothing to roll back either.
    let _: TxStep = x.execute_tx(&gas(5));
    let _: TxStep =
        x.execute_tx_in_vm(Some(ExecutionResult::Halt { reason: Halt::Other("InvalidSignature") }));
    let step = x.rollback_last_tx();
    assert_eq!(step.outcome, Outcome::Refused(ProtocolError::NothingToRollBack));
}

#[test]
fn rollback_twice_is_refused_the_second_time() {
    let mut x = executor(false, false);
    pending(&mut x);
    assert_eq!(x.rollback_last_tx().outcome, Outcome::Reply(()));
    assert_eq!(
        x.rollback_last_tx().outcome,
        Outcome::Refused(ProtocolError::NothingToRollBack)
    );
}

#[test]
fn next_miniblock_touches_no_snapshot() {
    let mut x = executor(false, false);
    let step = x.start_next_miniblock();
    assert_eq!(step.actions, vec![Action::StartNewL2Block]);
    assert_eq!(step.outcome, Outcome::Reply(()));
    assert_eq!(x.phase(), Phase::Idle);
    assert_eq!(x.snapshots(), 0);

    pending(&mut x);
    let step = x.start_next_miniblock();
    assert_eq!(step.actions, vec![Action::StartNewL2Block]);
    assert_eq!(step.outcome, Outcome::Reply(()));
    assert_eq!(x.phase(), Phase::TxPending { standing: Standing::Kept });
    assert_eq!(x.snapshots(), 1);
}

#[test]
fn rollback_across_a_miniblock_boundary_is_refused() {
    let mut x = executor(false, false);
    pending(&mut x);
    let _ = x.start_next_miniblock();
    let step = x.rollback_last_tx();
    assert!(step.actions.is_empty());
    assert_eq!(step.outcome, Outcome::Refused(ProtocolError::NothingToRollBack));
    assert_eq!(x.phase(), Phase::TxPending { standing: Standing::Kept });

    // The next transaction still finds, and removes, the snapshot.
    let step: TxStep = x.execute_tx(&gas(5));
    assert_eq!(step.actions[0], Action::PopSnapshotNoRollback);
}

#[test]
fn finish_batch_asks_for_the_batch_result() {
    let mut x = executor(false, false);
    let step: Step<&'static str> = x.finish_batch();
    assert_eq!(step.actions, vec![Action::FinishBatch]);
    assert_eq!(step.outcome, Outcome::Report);
    assert_eq!(x.phase(), Phase::Finishing);

    let mut x = executor(false, false);
    pending(&mut x);
    let step: Step<&'static str> = x.finish_batch();
    assert_eq!(step.actions, vec![Action::FinishBatch]);
    assert_eq!(x.phase(), Phase::Finishing);
    assert_eq!(x.snapshots(), 1);
}

#[test]
fn witness_is_captured_if_and_only_if_asked_for() {
    let mut x = executor(false, true);
    let _: Step<&'static str> = x.finish_batch();
    let step = x.batch_finished(&ExecutionResult::<&'static str>::Success, "batch");
    assert_eq!(step.actions, vec![Action::CaptureWitnessBlockState]);
    assert_eq!(step.outcome, Outcome::Reply("batch"));
    assert_eq!(x.phase(), Phase::Finished);

    let mut x = executor(false, false);
    let _: Step<&'static str> = x.finish_batch();
    let step = x.batch_finished(&ExecutionResult::<&'static str>::Success, "batch");
    assert!(step.actions.is_empty());
    assert_eq!(step.outcome, Outcome::Reply("batch"));
    assert_eq!(x.phase(), Phase::Finished);
}

#[test]
fn failed_block_tip_of_the_batch_aborts() {
    let reports = [
        ExecutionResult::Revert,
        ExecutionResult::Halt { reason: Halt::BootloaderOutOfGas },
        ExecutionResult::Halt { reason: Halt::Other("VMPanic") },
    ];
    for report in reports {
        let mut x = executor(false, true);
        let _: Step<&'static str> = x.finish_batch();
        let step = x.batch_finished(&report, "batch");
        assert_eq!(step.outcome, Outcome::Abort(Violation::BatchBlockTipFailed));
        assert!(step.actions.is_empty());
        assert_eq!(x.phase(), Phase::Aborted);
    }
}

#[test]
fn a_finished_executor_takes_no_command() {
    let mut x = executor(false, false);
    let _: Step<&'static str> = x.finish_batch();
    let _ = x.batch_finished(&ExecutionResult::<&'static str>::Success, "batch");
    assert_eq!(x.phase(), Phase::Finished);

    let step: TxStep = x.execute_tx(&gas(1));
    assert_eq!(step.outcome, Outcome::Refused(ProtocolError::BatchFinished));
    assert!(step.actions.is_empty());
    // Not even the gas gate answers any more.
    let step: TxStep = x.execute_tx(&gas(u64::MAX));
    assert_eq!(step.outcome, Outcome::Refused(ProtocolError::BatchFinished));
    let step = x.rollback_last_tx();
    assert_eq!(step.outcome, Outcome::Refused(ProtocolError::BatchFinished));
    assert!(step.actions.is_empty());
    let step = x.start_next_miniblock();
    assert_eq!(step.outcome, Outcome::Refused(ProtocolError::BatchFinished));
    assert!(step.actions.is_empty());
    let step: Step<&'static str> = x.finish_batch();
    assert_eq!(step.outcome, Outcome::Refused(ProtocolError::BatchFinished));
    assert!(step.actions.is_empty());
    assert_eq!(x.phase(), Phase::Finished);
}

#[test]
fn an_aborted_executor_takes_no_command() {
    let mut x = executor(false, false);
    let _: Step<&'static str> = x.finish_batch();
    let _ = x.batch_finished(&ExecutionResult::<&'static str>::Revert, "batch");
    assert_eq!(x.phase(), Phase::Aborted);

    let step: TxStep = x.execute_tx(&gas(1));
    assert_eq!(step.outcome, Outcome::Refused(ProtocolError::Aborted));
    assert_eq!(x.rollback_last_tx().outcome, Outcome::Refused(ProtocolError::Aborted));
    assert_eq!(x.start_next_miniblock().outcome, Outcome::Refused(ProtocolError::Aborted));
    let step: Step<&'static str> = x.finish_batch();
    assert_eq!(step.outcome, Outcome::Refused(ProtocolError::Aborted));
    assert_eq!(x.phase(), Phase::Aborted);
}

#[test]
fn a_command_in_the_middle_of_another_is_refused() {
    let mut x = executor(false, false);
    let _: TxStep = x.execute_tx(&gas(5));
    let step: TxStep = x.execute_tx(&gas(5));
    assert_eq!(step.outcome, Outcome::Refused(ProtocolError::CommandInFlight));
    assert_eq!(x.rollback_last_tx().outcome, Outcome::Refused(ProtocolError::CommandInFlight));
    assert_eq!(
        x.start_next_miniblock().outcome,
        Outcome::Refused(ProtocolError::CommandInFlight)
    );
    let step: Step<&'static str> = x.finish_batch();
    assert_eq!(step.outcome, Outcome::Refused(ProtocolError::CommandInFlight));
    assert_eq!(x.phase(), Phase::CompressionAttempt);
    assert_eq!(x.snapshots(), 2);
}

#[test]
fn a_report_that_nothing_waits_for_is_refused() {
    let mut x = executor(false, false);
    let step: TxStep = x.execute_tx_in_vm(Some(ExecutionResult::Success));
    assert_eq!(step.outcome, Outcome::Refused(ProtocolError::UnexpectedReport));
    let step: TxStep = x.dryrun_block_tip(ExecutionResult::Success, artifacts());
    assert_eq!(step.outcome, Outcome::Refused(ProtocolError::UnexpectedReport));
    let step = x.batch_finished(&ExecutionResult::<&'static str>::Success, "batch");
    assert_eq!(step.outcome, Outcome::Refused(ProtocolError::UnexpectedReport));
    assert_eq!(x.phase(), Phase::Idle);

    // The dry run's report is not taken for a run's, nor the other way round.
    let _: TxStep = x.execute_tx(&gas(5));
    let step: TxStep = x.dryrun_block_tip(ExecutionResult::Success, artifacts());
    assert_eq!(step.outcome, Outcome::Refused(ProtocolError::UnexpectedReport));
    assert_eq!(x.phase(), Phase::CompressionAttempt);
    let _: TxStep = x.execute_tx_in_vm(Some(ExecutionResult::Success));
    let step: TxStep = x.execute_tx_in_vm(Some(ExecutionResult::Success));
    assert_eq!(step.outcome, Outcome::Refused(ProtocolError::UnexpectedReport));
    assert_eq!(x.phase(), Phase::DryRun);
}

#[test]
fn awaits_names_the_report_that_is_due() {
    let mut x = executor(false, false);
    assert_eq!(x.awaits(), Awaited::Nothing);
    let _: TxStep = x.execute_tx(&gas(5));
    assert_eq!(x.awaits(), Awaited::TxRun);
    let _: TxStep = x.execute_tx_in_vm(None);
    assert_eq!(x.awaits(), Awaited::TxRun);
    let _: TxStep = x.execute_tx_in_vm(Some(ExecutionResult::Success));
    assert_eq!(x.awaits(), Awaited::BlockTipDryRun);
    let _: TxStep = x.dryrun_block_tip(ExecutionResult::Success, artifacts());
    assert_eq!(x.awaits(), Awaited::Nothing);
    let _: Step<&'static str> = x.finish_batch();
    assert_eq!(x.awaits(), Awaited::BatchResult);
    let _ = x.batch_finished(&ExecutionResult::<&'static str>::Success, "batch");
    assert_eq!(x.awaits(), Awaited::Nothing);
    assert_eq!(Phase::Aborted.awaits(), Awaited::Nothing);
}
