//! What the virtual machine reports of a run, and what the executor replies.

use vstd::prelude::*;

verus! {

/// Why the virtual machine halted. The executor tells two reasons apart and
/// carries every other one through untouched, as a value of the caller's type.
#[derive(Clone, Debug, PartialEq, Eq)]
pub enum Halt<X> {
    /// The bootloader's gas budget was exceeded.
    BootloaderOutOfGas,
    /// The transaction asks for more gas than the executor admits.
    TooBigGasLimit,
    /// Any other reason, as the virtual machine gave it.
    Other(X),
}

/// How a run of the virtual machine ended.
#[derive(Clone, Debug, PartialEq, Eq)]
pub enum ExecutionResult<X> {
    Success,
    Revert,
    Halt { reason: Halt<X> },
}

impl<X> ExecutionResult<X> {
    /// A run failed unless it ended in `Success`.
    pub open spec fn spec_is_failed(&self) -> bool {
        !(self is Success)
    }

    #[verifier::when_used_as_spec(spec_is_failed)]
    pub fn is_failed(&self) -> (r: bool)
        ensures
            r == self.spec_is_failed(),
    {
        match self {
            ExecutionResult::Success => false,
            _ => true,
        }
    }
}

/// The reply to a request to execute a transaction.
///
/// `R` is the virtual machine's result-and-logs, `M` the execution metrics,
/// `B` one compressed bytecode, `C` one traced call.
#[derive(Clone, Debug, PartialEq, Eq)]
pub enum TxExecutionResult<R, M, B, C, X> {
    /// The transaction ran and the dry run of the block tip succeeded.
    Success {
        tx_result: R,
        tx_metrics: M,
        bootloader_dry_run_metrics: M,
        bootloader_dry_run_result: R,
        compressed_bytecodes: Vec<B>,
        call_tracer_result: Vec<C>,
    },
    /// The virtual machine rejected the transaction.
    RejectedByVm { reason: Halt<X> },
    /// The bootloader's gas does not suffice to execute the transaction.
    BootloaderOutOfGasForTx,
    /// The bootloader's gas suffices for the transaction but not for the
    /// block tip after it.
    BootloaderOutOfGasForBlockTip,
}

/// What a successful reply is assembled from.
#[derive(Clone, Debug, PartialEq, Eq)]
pub struct TxArtifacts<R, M, B, C> {
    /// The virtual machine's result-and-logs for the transaction.
    pub tx_result: R,
    /// Execution metrics of the transaction.
    pub tx_metrics: M,
    /// Execution metrics of the dry run of the block tip.
    pub bootloader_dry_run_metrics: M,
    /// The virtual machine's result-and-logs for the dry run.
    pub bootloader_dry_run_result: R,
    /// The bytecodes that the accepted run published.
    pub compressed_bytecodes: Vec<B>,
    /// The calls that the tracer collected; empty unless tracing was on.
    pub call_tracer_result: Vec<C>,
}

impl<R, M, B, C, X> TxExecutionResult<R, M, B, C, X> {
    /// The reply to a transaction that halted: out of gas for the
    /// transaction where the bootloader ran out of gas, a rejection with the
    /// reason in every other case.
    pub open spec fn spec_halted(reason: Halt<X>) -> Self {
        match reason {
            Halt::BootloaderOutOfGas => TxExecutionResult::BootloaderOutOfGasForTx,
            _ => TxExecutionResult::RejectedByVm { reason },
        }
    }

    #[verifier::when_used_as_spec(spec_halted)]
    pub fn halted(reason: Halt<X>) -> (r: Self)
        ensures
            r == Self::spec_halted(reason),
    {
        match reason {
            Halt::BootloaderOutOfGas => TxExecutionResult::BootloaderOutOfGasForTx,
            _ => TxExecutionResult::RejectedByVm { reason },
        }
    }

    /// The reply to a transaction that ran and whose block tip can be
    /// closed: it carries the artifacts, each in its place.
    pub open spec fn spec_success(artifacts: TxArtifacts<R, M, B, C>) -> Self {
        TxExecutionResult::Success {
            tx_result: artifacts.tx_result,
            tx_metrics: artifacts.tx_metrics,
            bootloader_dry_run_metrics: artifacts.bootloader_dry_run_metrics,
            bootloader_dry_run_result: artifacts.bootloader_dry_run_result,
            compressed_bytecodes: artifacts.compressed_bytecodes,
            call_tracer_result: artifacts.call_tracer_result,
        }
    }

    #[verifier::when_used_as_spec(spec_success)]
    pub fn success(artifacts: TxArtifacts<R, M, B, C>) -> (r: Self)
        ensures
            r == Self::spec_success(artifacts),
    {
        TxExecutionResult::Success {
            tx_result: artifacts.tx_result,
            tx_metrics: artifacts.tx_metrics,
            bootloader_dry_run_metrics: artifacts.bootloader_dry_run_metrics,
            bootloader_dry_run_result: artifacts.bootloader_dry_run_result,
            compressed_bytecodes: artifacts.compressed_bytecodes,
            call_tracer_result: artifacts.call_tracer_result,
        }
    }

    /// The halt reason that the reply stands for, if it is not a success.
    pub open spec fn spec_err(&self) -> Option<Halt<X>> {
        match self {
            TxExecutionResult::Success { .. } => None,
            TxExecutionResult::RejectedByVm { reason } => Some(*reason),
            TxExecutionResult::BootloaderOutOfGasForTx => Some(Halt::BootloaderOutOfGas),
            TxExecutionResult::BootloaderOutOfGasForBlockTip => Some(Halt::BootloaderOutOfGas),
        }
    }

    /// Returns the halt reason if the transaction was rejected or the
    /// bootloader ran out of gas, and nothing after a success.
    pub fn err(&self) -> (r: Option<&Halt<X>>)
        ensures
            r.is_some() == self.spec_err().is_some(),
            r matches Some(h) ==> Some(*h) == self.spec_err(),
    {
        match self {
            TxExecutionResult::Success { .. } => None,
            TxExecutionResult::RejectedByVm { reason } => Some(reason),
            TxExecutionResult::BootloaderOutOfGasForTx
            | TxExecutionResult::BootloaderOutOfGasForBlockTip => Some(&Halt::BootloaderOutOfGas),
        }
    }
}

} // verus!
