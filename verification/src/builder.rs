//! The options of a batch executor, and the executor they make.

use crate::executor::{BatchExecutor, ExecutorState, Phase};
use crate::gas::U256;
use vstd::prelude::*;

verus! {

/// Makes the executors that drive a real virtual machine, one per batch.
#[derive(Debug, Clone)]
pub struct MainBatchExecutorBuilder {
    state_keeper_db_path: String,
    save_call_traces: bool,
    max_allowed_tx_gas_limit: U256,
    upload_witness_inputs_to_gcs: bool,
}

impl MainBatchExecutorBuilder {
    /// The path of the local storage snapshot.
    pub closed spec fn spec_state_keeper_db_path(&self) -> Seq<char> {
        self.state_keeper_db_path@
    }

    /// The executor that `init_batch` makes: idle, with the builder's options.
    pub closed spec fn fresh(&self) -> ExecutorState {
        ExecutorState {
            phase: Phase::Idle,
            snapshots: 0,
            max_allowed_tx_gas_limit: self.max_allowed_tx_gas_limit@,
            save_call_traces: self.save_call_traces,
            upload_witness_inputs_to_gcs: self.upload_witness_inputs_to_gcs,
        }
    }

    pub fn new(
        state_keeper_db_path: String,
        max_allowed_tx_gas_limit: U256,
        save_call_traces: bool,
        upload_witness_inputs_to_gcs: bool,
    ) -> (r: Self)
        ensures
            r.spec_state_keeper_db_path() == state_keeper_db_path@,
            r.fresh() == (ExecutorState {
                phase: Phase::Idle,
                snapshots: 0,
                max_allowed_tx_gas_limit: max_allowed_tx_gas_limit@,
                save_call_traces,
                upload_witness_inputs_to_gcs,
            }),
    {
        MainBatchExecutorBuilder {
            state_keeper_db_path,
            save_call_traces,
            max_allowed_tx_gas_limit,
            upload_witness_inputs_to_gcs,
        }
    }

    /// The path of the local storage snapshot, which the host brings up to
    /// date before the batch starts.
    pub fn state_keeper_db_path(&self) -> (r: &str)
        ensures
            r@ == self.spec_state_keeper_db_path(),
    {
        self.state_keeper_db_path.as_str()
    }

    /// An executor for the next batch. Each batch gets one of its own.
    pub fn init_batch(&self) -> (r: BatchExecutor)
        ensures
            r@ == self.fresh(),
    {
        BatchExecutor::new(
            self.save_call_traces,
            self.max_allowed_tx_gas_limit,
            self.upload_witness_inputs_to_gcs,
        )
    }
}

} // verus!
