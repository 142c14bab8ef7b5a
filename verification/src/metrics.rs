//! The throughput figure that is published with the reply to a transaction.

use crate::outcome::TxExecutionResult;
use vstd::prelude::*;

verus! {

/// The throughput figure published with the reply to a transaction.
#[derive(Clone, Copy, Debug, PartialEq, Eq, Structural)]
pub enum Throughput {
    /// Computational gas used, per nanosecond of the round trip.
    ComputationalGasPerNanosecond,
    /// The transaction's gas limit, per nanosecond of the round trip. The
    /// gas that a failed transaction burnt is hard to get at, and its limit
    /// bounds it.
    FailedTxGasLimitPerNanosecond,
}

impl Throughput {
    /// The name under which the figure is published.
    pub fn name(&self) -> (r: &'static str)
        ensures
            r@ == match *self {
                Throughput::ComputationalGasPerNanosecond =>
                    "state_keeper.computational_gas_per_nanosecond"@,
                Throughput::FailedTxGasLimitPerNanosecond =>
                    "state_keeper.failed_tx_gas_limit_per_nanosecond"@,
            },
    {
        match self {
            Throughput::ComputationalGasPerNanosecond =>
                "state_keeper.computational_gas_per_nanosecond",
            Throughput::FailedTxGasLimitPerNanosecond =>
                "state_keeper.failed_tx_gas_limit_per_nanosecond",
        }
    }
}

impl<R, M, B, C, X> TxExecutionResult<R, M, B, C, X> {
    /// The throughput figure that goes with the reply: gas used after a
    /// success, the gas limit after anything else.
    pub fn throughput(&self) -> (r: Throughput)
        ensures
            r == if self is Success {
                Throughput::ComputationalGasPerNanosecond
            } else {
                Throughput::FailedTxGasLimitPerNanosecond
            },
    {
        match self {
            TxExecutionResult::Success { .. } => Throughput::ComputationalGasPerNanosecond,
            _ => Throughput::FailedTxGasLimitPerNanosecond,
        }
    }
}

} // verus!
