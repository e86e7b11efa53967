//! Planning of a mixed benchmark workload over a fleet of endpoints.
//!
//! A run mixes three kinds of workload: shared-counter updates, object
//! transfers and delegation. From the relative weights of the kinds and the
//! targets of the run this crate derives the quota of each kind, the gas that
//! has to be generated for it, the share of that gas that each endpoint
//! receives, and the workloads that are built on every endpoint. The order in
//! which endpoints are provisioned is fixed by a small state machine, because
//! all of them draw on one primary gas object.
//!
//! Everything here is pure computation on plain values. Generating key pairs,
//! talking to a validator and initialising a workload are left to the caller,
//! who is told what to do next and reports back how it went.

pub mod assembly;
pub mod chunk;
pub mod configuration;
pub mod gas_config;
pub mod gas_request;
pub mod quota;
pub mod sequencer;

pub use assembly::{WorkloadInitGas, WorkloadOrder, WorkloadPayloadGas, WorkloadType, Workloads};
pub use chunk::split_workload;
pub use configuration::{configure_combined_mode_helper, Configuration, WorkloadConfiguration};
pub use gas_config::WorkloadGasConfig;
pub use gas_request::{DelegationGas, GasRequests, SharedCounterGas, TransferObjectGas};
pub use quota::{Quota, Targets, WeightVector, WorkloadKind};
pub use sequencer::{Outcome, Sequencer, Step};
