//! How much gas has to be generated for each workload kind.
//!
//! Gas is generated once for the whole run and dealt out to the endpoints
//! afterwards. This module says how much to ask for; how a gas configuration
//! is made is up to the caller.

use crate::quota::distinct_counters;
use crate::quota::num_shared_counters;
use crate::quota::WorkloadKind;
use vstd::prelude::*;

verus! {

/// Gas for the shared-counter workload: one coin to create each counter, and
/// one coin for each operation in flight.
#[derive(Clone, Copy, PartialEq, Eq, Debug, Structural)]
pub struct SharedCounterGas {
    pub num_shared_counters: u64,
    pub num_payloads: u64,
}

/// Gas for the transfer workload. How many coins come of these numbers is the
/// workload's own rule; they are handed on as they are.
#[derive(Clone, Copy, PartialEq, Eq, Debug, Structural)]
pub struct TransferObjectGas {
    pub num_tokens: u64,
    pub num_transfer_accounts: u64,
    pub num_payloads: u64,
}

/// Gas for the delegation workload: `count` coins.
#[derive(Clone, Copy, PartialEq, Eq, Debug, Structural)]
pub struct DelegationGas {
    pub count: u64,
}

/// What to generate for a run. A kind for which nothing is asked gets no gas
/// at all.
#[derive(Clone, Copy, PartialEq, Eq, Debug)]
pub struct GasRequests {
    pub shared_counter: Option<SharedCounterGas>,
    pub transfer_object: Option<TransferObjectGas>,
    pub delegation: Option<DelegationGas>,
}

impl SharedCounterGas {
    /// Gas for `max_ops` operations in flight: a counter for each operation
    /// that the hotness factor does not send to a counter already in use, and
    /// a payload coin for every operation, hot or not.
    pub open spec fn sized(max_ops: u64, hotness_factor: u32) -> SharedCounterGas {
        SharedCounterGas {
            num_shared_counters: distinct_counters(max_ops as int, hotness_factor as int) as u64,
            num_payloads: max_ops,
        }
    }

    /// Gas for `max_ops` operations in flight.
    pub fn for_max_ops(max_ops: u64, hotness_factor: u32) -> (gas: SharedCounterGas)
        ensures
            gas == SharedCounterGas::sized(max_ops, hotness_factor),
            gas.num_shared_counters == distinct_counters(max_ops as int, hotness_factor as int),
            gas.num_shared_counters <= gas.num_payloads == max_ops,
    {
        proof {
            crate::quota::lemma_distinct_counters_within_max_ops(
                max_ops as int,
                hotness_factor as int,
            );
        }
        SharedCounterGas {
            num_shared_counters: num_shared_counters(max_ops, hotness_factor),
            num_payloads: max_ops,
        }
    }
}

impl TransferObjectGas {
    /// Gas for `max_ops` operations in flight among `num_transfer_accounts`
    /// accounts.
    pub open spec fn sized(max_ops: u64, num_transfer_accounts: u64) -> TransferObjectGas {
        TransferObjectGas { num_tokens: max_ops, num_transfer_accounts, num_payloads: max_ops }
    }

    /// Gas for `max_ops` operations in flight among `num_transfer_accounts`
    /// accounts.
    pub fn for_max_ops(max_ops: u64, num_transfer_accounts: u64) -> (gas: TransferObjectGas)
        ensures
            gas == TransferObjectGas::sized(max_ops, num_transfer_accounts),
    {
        TransferObjectGas { num_tokens: max_ops, num_transfer_accounts, num_payloads: max_ops }
    }
}

impl GasRequests {
    /// Whether gas is asked for `kind`.
    pub open spec fn asks_for(self, kind: WorkloadKind) -> bool {
        match kind {
            WorkloadKind::SharedCounter => self.shared_counter is Some,
            WorkloadKind::TransferObject => self.transfer_object is Some,
            WorkloadKind::Delegation => self.delegation is Some,
        }
    }

    /// Whether gas is asked for `kind`.
    pub fn requests(&self, kind: WorkloadKind) -> (asked: bool)
        ensures
            asked == self.asks_for(kind),
    {
        match kind {
            WorkloadKind::SharedCounter => self.shared_counter.is_some(),
            WorkloadKind::TransferObject => self.transfer_object.is_some(),
            WorkloadKind::Delegation => self.delegation.is_some(),
        }
    }
}

} // verus!
