//! The two ways to set a run up, and the plan that each of them makes.

use crate::assembly::{
    order_views, WorkloadInitGas, WorkloadOrder, WorkloadPayloadGas, Workloads,
};
use crate::gas_config::{config_views, GasConfigView, GasList, WorkloadGasConfig};
use crate::gas_request::{DelegationGas, GasRequests, SharedCounterGas, TransferObjectGas};
use crate::quota::{
    combined_max_ops, combined_quota, combined_quota_fits, combined_quota_of, disjoint_max_ops,
    disjoint_quota, disjoint_quota_fits, disjoint_quota_of, Quota, Targets, WeightVector,
    WorkloadKind,
};
use crate::sequencer::{first_step, Sequencer};
use vstd::prelude::*;

verus! {

/// How the workload kinds of a run share its budget.
#[derive(Clone, Copy, PartialEq, Eq, Debug, Structural)]
pub enum WorkloadConfiguration {
    /// Each worker runs all workloads on one budget. Backpressure on one
    /// workload slows the others down.
    Combined,
    /// Each workload has workers and a budget of its own, by its weight.
    /// Backpressure on one workload leaves the others alone.
    Disjoint,
}

/// The plan of a run: what gas to generate, and what to build on each of its
/// endpoints.
#[derive(Clone, Copy, PartialEq, Eq, Debug)]
pub struct Configuration {
    /// The number of endpoints.
    pub num_proxies: usize,
    /// The gas to generate, for all endpoints together.
    pub gas_requests: GasRequests,
    /// The workloads to build on every endpoint.
    pub workloads: Workloads,
}

impl WorkloadConfiguration {
    /// Whether the outstanding operations that this way of sharing the budget
    /// gives rise to can be counted in 64 bits.
    pub open spec fn supports(self, weights: WeightVector, targets: Targets) -> bool {
        match self {
            WorkloadConfiguration::Combined => combined_max_ops(targets) <= u64::MAX,
            WorkloadConfiguration::Disjoint => {
                &&& disjoint_max_ops(weights, targets, WorkloadKind::SharedCounter) <= u64::MAX
                &&& disjoint_max_ops(weights, targets, WorkloadKind::TransferObject) <= u64::MAX
                &&& disjoint_max_ops(weights, targets, WorkloadKind::Delegation) <= u64::MAX
            },
        }
    }

    /// The gas to generate.
    ///
    /// On one budget, every kind that has a weight gets gas for the
    /// outstanding operations of the whole mix; delegation, too, is sized by
    /// these and not by the number of accounts. On budgets of their own, a
    /// kind gets gas only if its quota lets it run: the shared-counter and
    /// the transfer workload for their own outstanding operations, and
    /// delegation a coin for each transfer account.
    pub open spec fn gas_requests(self, weights: WeightVector, targets: Targets) -> GasRequests {
        match self {
            WorkloadConfiguration::Combined => {
                let max_ops = combined_quota_of(targets).max_in_flight_ops;
                GasRequests {
                    shared_counter: if weights.shared_counter == 0 {
                        None
                    } else {
                        Some(
                            SharedCounterGas::sized(max_ops, targets.shared_counter_hotness_factor),
                        )
                    },
                    transfer_object: if weights.transfer_object == 0 {
                        None
                    } else {
                        Some(TransferObjectGas::sized(max_ops, targets.num_transfer_accounts))
                    },
                    delegation: if weights.delegation == 0 {
                        None
                    } else {
                        Some(DelegationGas { count: max_ops })
                    },
                }
            },
            WorkloadConfiguration::Disjoint => {
                let shared_counter = disjoint_quota_of(
                    weights,
                    targets,
                    WorkloadKind::SharedCounter,
                );
                let transfer_object = disjoint_quota_of(
                    weights,
                    targets,
                    WorkloadKind::TransferObject,
                );
                let delegation = disjoint_quota_of(weights, targets, WorkloadKind::Delegation);
                GasRequests {
                    shared_counter: if shared_counter.degenerate() {
                        None
                    } else {
                        Some(
                            SharedCounterGas::sized(
                                shared_counter.max_in_flight_ops,
                                targets.shared_counter_hotness_factor,
                            ),
                        )
                    },
                    transfer_object: if transfer_object.degenerate() {
                        None
                    } else {
                        Some(
                            TransferObjectGas::sized(
                                transfer_object.max_in_flight_ops,
                                targets.num_transfer_accounts,
                            ),
                        )
                    },
                    delegation: if weights.delegation == 0 || delegation.degenerate() {
                        None
                    } else {
                        Some(DelegationGas { count: targets.num_transfer_accounts })
                    },
                }
            },
        }
    }

    /// The outstanding operations for which the shared-counter workload
    /// is sized.
    pub open spec fn shared_counter_max_ops(self, weights: WeightVector, targets: Targets) -> u64 {
        match self {
            WorkloadConfiguration::Combined => combined_quota_of(targets).max_in_flight_ops,
            WorkloadConfiguration::Disjoint => disjoint_quota_of(
                weights,
                targets,
                WorkloadKind::SharedCounter,
            ).max_in_flight_ops,
        }
    }

    /// The workloads to build on every endpoint.
    pub open spec fn workloads(self, weights: WeightVector, targets: Targets) -> Workloads {
        match self {
            WorkloadConfiguration::Combined => Workloads::Combined {
                quota: combined_quota_of(targets),
                in_flight_ratio: targets.in_flight_ratio,
                num_transfer_accounts: targets.num_transfer_accounts,
                weights,
            },
            WorkloadConfiguration::Disjoint => Workloads::Disjoint {
                shared_counter: disjoint_quota_of(weights, targets, WorkloadKind::SharedCounter),
                transfer_object: disjoint_quota_of(weights, targets, WorkloadKind::TransferObject),
                delegation: disjoint_quota_of(weights, targets, WorkloadKind::Delegation),
                num_transfer_accounts: targets.num_transfer_accounts,
            },
        }
    }

    /// Whether `configure` can be called with these weights and targets.
    pub fn can_configure(&self, weights: &WeightVector, targets: &Targets) -> (supported: bool)
        ensures
            supported == self.supports(*weights, *targets),
    {
        match self {
            WorkloadConfiguration::Combined => combined_quota_fits(targets),
            WorkloadConfiguration::Disjoint => {
                disjoint_quota_fits(weights, targets, WorkloadKind::SharedCounter)
                    && disjoint_quota_fits(weights, targets, WorkloadKind::TransferObject)
                    && disjoint_quota_fits(weights, targets, WorkloadKind::Delegation)
            },
        }
    }

    /// Plans a run over `num_proxies` endpoints.
    pub fn configure(&self, weights: &WeightVector, targets: &Targets, num_proxies: usize) -> (plan:
        Configuration)
        requires
            self.supports(*weights, *targets),
        ensures
            plan.num_proxies == num_proxies,
            plan.gas_requests == self.gas_requests(*weights, *targets),
            plan.workloads == self.workloads(*weights, *targets),
    {
        match self {
            WorkloadConfiguration::Combined => self.configure_combined_mode(
                targets.num_workers,
                targets.num_transfer_accounts,
                weights.shared_counter,
                weights.transfer_object,
                weights.delegation,
                targets.shared_counter_hotness_factor,
                targets.target_qps,
                targets.in_flight_ratio,
                num_proxies,
            ),
            WorkloadConfiguration::Disjoint => self.configure_disjoint_mode(
                targets.num_workers,
                targets.num_transfer_accounts,
                weights.shared_counter,
                weights.transfer_object,
                weights.delegation,
                targets.shared_counter_hotness_factor,
                targets.target_qps,
                targets.in_flight_ratio,
                num_proxies,
            ),
        }
    }

    /// Plans a run in which all kinds share one budget.
    pub fn configure_combined_mode(
        &self,
        num_workers: u64,
        num_transfer_accounts: u64,
        shared_counter_weight: u32,
        transfer_object_weight: u32,
        delegation_weight: u32,
        shared_counter_hotness_factor: u32,
        target_qps: u64,
        in_flight_ratio: u64,
        num_proxies: usize,
    ) -> (plan: Configuration)
        requires
            target_qps * in_flight_ratio <= u64::MAX,
        ensures
            plan.num_proxies == num_proxies,
            plan.gas_requests == WorkloadConfiguration::Combined.gas_requests(
                weights_of(shared_counter_weight, transfer_object_weight, delegation_weight),
                targets_of(
                    target_qps,
                    num_workers,
                    in_flight_ratio,
                    num_transfer_accounts,
                    shared_counter_hotness_factor,
                ),
            ),
            plan.workloads == WorkloadConfiguration::Combined.workloads(
                weights_of(shared_counter_weight, transfer_object_weight, delegation_weight),
                targets_of(
                    target_qps,
                    num_workers,
                    in_flight_ratio,
                    num_transfer_accounts,
                    shared_counter_hotness_factor,
                ),
            ),
    {
        configure_combined_mode_helper(
            shared_counter_hotness_factor,
            target_qps,
            in_flight_ratio,
            shared_counter_weight,
            transfer_object_weight,
            num_transfer_accounts,
            delegation_weight,
            num_proxies,
            num_workers,
        )
    }

    /// Plans a run in which every kind has a budget of its own.
    ///
    /// A kind whose throughput, workers or outstanding operations come to
    /// nothing is left out of the run, whether it has a weight or not: no gas
    /// is asked for it and no workload is built for it.
    pub fn configure_disjoint_mode(
        &self,
        num_workers: u64,
        num_transfer_accounts: u64,
        shared_counter_weight: u32,
        transfer_object_weight: u32,
        delegation_weight: u32,
        shared_counter_hotness_factor: u32,
        target_qps: u64,
        in_flight_ratio: u64,
        num_proxies: usize,
    ) -> (plan: Configuration)
        requires
            WorkloadConfiguration::Disjoint.supports(
                weights_of(shared_counter_weight, transfer_object_weight, delegation_weight),
                targets_of(
                    target_qps,
                    num_workers,
                    in_flight_ratio,
                    num_transfer_accounts,
                    shared_counter_hotness_factor,
                ),
            ),
        ensures
            plan.num_proxies == num_proxies,
            plan.gas_requests == WorkloadConfiguration::Disjoint.gas_requests(
                weights_of(shared_counter_weight, transfer_object_weight, delegation_weight),
                targets_of(
                    target_qps,
                    num_workers,
                    in_flight_ratio,
                    num_transfer_accounts,
                    shared_counter_hotness_factor,
                ),
            ),
            plan.workloads == WorkloadConfiguration::Disjoint.workloads(
                weights_of(shared_counter_weight, transfer_object_weight, delegation_weight),
                targets_of(
                    target_qps,
                    num_workers,
                    in_flight_ratio,
                    num_transfer_accounts,
                    shared_counter_hotness_factor,
                ),
            ),
    {
        let weights = WeightVector {
            shared_counter: shared_counter_weight,
            transfer_object: transfer_object_weight,
            delegation: delegation_weight,
        };
        let targets = Targets {
            target_qps,
            num_workers,
            in_flight_ratio,
            num_transfer_accounts,
            shared_counter_hotness_factor,
        };
        let shared_counter: Quota = disjoint_quota(&weights, &targets, WorkloadKind::SharedCounter);
        let shared_counter_gas: Option<SharedCounterGas> = if shared_counter.is_degenerate() {
            None
        } else {
            Some(
                SharedCounterGas::for_max_ops(
                    shared_counter.max_in_flight_ops,
                    shared_counter_hotness_factor,
                ),
            )
        };
        let transfer_object: Quota = disjoint_quota(
            &weights,
            &targets,
            WorkloadKind::TransferObject,
        );
        let delegation: Quota = disjoint_quota(&weights, &targets, WorkloadKind::Delegation);
        let transfer_object_gas: Option<TransferObjectGas> = if transfer_object.is_degenerate() {
            None
        } else {
            Some(
                TransferObjectGas::for_max_ops(
                    transfer_object.max_in_flight_ops,
                    num_transfer_accounts,
                ),
            )
        };
        let delegation_gas: Option<DelegationGas> = if delegation_weight == 0
            || delegation.is_degenerate() {
            None
        } else {
            Some(DelegationGas { count: num_transfer_accounts })
        };
        Configuration {
            num_proxies,
            gas_requests: GasRequests {
                shared_counter: shared_counter_gas,
                transfer_object: transfer_object_gas,
                delegation: delegation_gas,
            },
            workloads: Workloads::Disjoint {
                shared_counter,
                transfer_object,
                delegation,
                num_transfer_accounts,
            },
        }
    }
}

/// The weights of the three kinds as one value.
pub open spec fn weights_of(
    shared_counter_weight: u32,
    transfer_object_weight: u32,
    delegation_weight: u32,
) -> WeightVector {
    WeightVector {
        shared_counter: shared_counter_weight,
        transfer_object: transfer_object_weight,
        delegation: delegation_weight,
    }
}

/// The targets of a run as one value.
pub open spec fn targets_of(
    target_qps: u64,
    num_workers: u64,
    in_flight_ratio: u64,
    num_transfer_accounts: u64,
    shared_counter_hotness_factor: u32,
) -> Targets {
    Targets {
        target_qps,
        num_workers,
        in_flight_ratio,
        num_transfer_accounts,
        shared_counter_hotness_factor,
    }
}

/// Plans a run in which all kinds share one budget.
///
/// Gas is sized by the outstanding operations of the whole mix,
/// `target_qps * in_flight_ratio`, for every kind that has a weight. Every
/// endpoint gets one workload, which is told the weights and balances the
/// kinds itself.
pub fn configure_combined_mode_helper(
    shared_counter_hotness_factor: u32,
    target_qps: u64,
    in_flight_ratio: u64,
    shared_counter_weight: u32,
    transfer_object_weight: u32,
    num_transfer_accounts: u64,
    delegation_weight: u32,
    num_proxies: usize,
    num_workers: u64,
) -> (plan: Configuration)
    requires
        target_qps * in_flight_ratio <= u64::MAX,
    ensures
        plan.num_proxies == num_proxies,
        plan.gas_requests == WorkloadConfiguration::Combined.gas_requests(
            weights_of(shared_counter_weight, transfer_object_weight, delegation_weight),
            targets_of(
                target_qps,
                num_workers,
                in_flight_ratio,
                num_transfer_accounts,
                shared_counter_hotness_factor,
            ),
        ),
        plan.workloads == WorkloadConfiguration::Combined.workloads(
            weights_of(shared_counter_weight, transfer_object_weight, delegation_weight),
            targets_of(
                target_qps,
                num_workers,
                in_flight_ratio,
                num_transfer_accounts,
                shared_counter_hotness_factor,
            ),
        ),
{
    let targets = Targets {
        target_qps,
        num_workers,
        in_flight_ratio,
        num_transfer_accounts,
        shared_counter_hotness_factor,
    };
    let quota: Quota = combined_quota(&targets);
    let max_ops: u64 = quota.max_in_flight_ops;
    let shared_counter_gas: Option<SharedCounterGas> = if shared_counter_weight == 0 {
        None
    } else {
        Some(SharedCounterGas::for_max_ops(max_ops, shared_counter_hotness_factor))
    };
    let transfer_object_gas: Option<TransferObjectGas> = if transfer_object_weight == 0 {
        None
    } else {
        Some(TransferObjectGas::for_max_ops(max_ops, num_transfer_accounts))
    };
    let delegation_gas: Option<DelegationGas> = if delegation_weight > 0 {
        Some(DelegationGas { count: max_ops })
    } else {
        None
    };
    Configuration {
        num_proxies,
        gas_requests: GasRequests {
            shared_counter: shared_counter_gas,
            transfer_object: transfer_object_gas,
            delegation: delegation_gas,
        },
        workloads: Workloads::Combined {
            quota,
            in_flight_ratio,
            num_transfer_accounts,
            weights: WeightVector {
                shared_counter: shared_counter_weight,
                transfer_object: transfer_object_weight,
                delegation: delegation_weight,
            },
        },
    }
}

impl Configuration {
    /// Deals the gas that was generated out to the endpoints. Entry `i` of the
    /// result is for endpoint `i`. Of a kind for which the plan asks no gas,
    /// no endpoint gets any, whatever `generated` holds for it.
    pub fn gas_configs<T>(&self, generated: WorkloadGasConfig<T>) -> (shares: Vec<
        WorkloadGasConfig<T>,
    >)
        ensures
            shares@.len() == self.num_proxies,
            config_views(shares@) == generated@.restricted_to(self.gas_requests).shares(
                self.num_proxies as int,
            ),
    {
        generated.restrict(&self.gas_requests).split(self.num_proxies)
    }

    /// Hands the gas that was provisioned for one endpoint to the workloads
    /// of that endpoint.
    pub fn assemble<G>(
        &self,
        init_gas: WorkloadInitGas<G>,
        payload_gas: WorkloadPayloadGas<G>,
    ) -> (orders: Vec<WorkloadOrder<G>>)
        ensures
            order_views(orders@) == self.workloads.orders(init_gas@, payload_gas@),
            orders@.len() == self.workloads.count(),
    {
        self.workloads.assemble(init_gas, payload_gas)
    }

    /// Begins to go through the endpoints of the run.
    pub fn sequencer(&self) -> (sequencer: Sequencer)
        ensures
            sequencer.endpoints() == self.num_proxies,
            sequencer.pending() == first_step(self.num_proxies as int),
    {
        Sequencer::start(self.num_proxies)
    }
}

/// A kind without weight is left out of a run altogether, whatever the other
/// weights and the targets are: no gas is asked for it, and on a budget of
/// its own its quota is zero throughout, so that no workload is built for it.
pub proof fn lemma_zero_weight_is_elided(
    mode: WorkloadConfiguration,
    weights: WeightVector,
    targets: Targets,
    kind: WorkloadKind,
)
    requires
        weights.of(kind) == 0,
    ensures
        !mode.gas_requests(weights, targets).asks_for(kind),
        disjoint_quota_of(weights, targets, kind) == (Quota {
            target_qps: 0,
            num_workers: 0,
            max_in_flight_ops: 0,
        }),
        disjoint_quota_of(weights, targets, kind).degenerate(),
{
    crate::quota::lemma_zero_weight_has_no_share(weights.total(), targets.target_qps as int);
    crate::quota::lemma_zero_weight_has_no_share(weights.total(), targets.num_workers as int);
    assert(0 * targets.in_flight_ratio == 0) by (nonlinear_arith);
}

/// On budgets of their own, a kind whose quota is degenerate is left out of
/// the run even if it has a weight: no gas is asked for it, and no workload
/// is built for it.
pub proof fn lemma_degenerate_kind_is_elided(
    weights: WeightVector,
    targets: Targets,
    kind: WorkloadKind,
)
    requires
        disjoint_quota_of(weights, targets, kind).degenerate(),
    ensures
        !WorkloadConfiguration::Disjoint.gas_requests(weights, targets).asks_for(kind),
        !WorkloadConfiguration::Disjoint.workloads(weights, targets).builds(kind),
{
}

/// On budgets of their own, gas is asked for exactly the kinds for which a
/// workload is built.
pub proof fn lemma_gas_is_asked_for_what_is_built(
    weights: WeightVector,
    targets: Targets,
    kind: WorkloadKind,
)
    ensures
        WorkloadConfiguration::Disjoint.gas_requests(weights, targets).asks_for(kind)
            == WorkloadConfiguration::Disjoint.workloads(weights, targets).builds(kind),
{
    if weights.of(kind) == 0 {
        lemma_zero_weight_is_elided(WorkloadConfiguration::Disjoint, weights, targets, kind);
    }
}

/// The quota that a kind has on a budget of its own, for every weight and
/// target: its throughput is the greatest number of operations per second
/// that, taken once for each unit of weight in the run, stays within the
/// kind's weight times the target; its workers are the least number that
/// covers the kind's weight times the workers of the run; and where the
/// outstanding operations can be counted in 64 bits, they are the throughput
/// times the in-flight ratio.
pub proof fn lemma_disjoint_quota_rounding(
    weights: WeightVector,
    targets: Targets,
    kind: WorkloadKind,
)
    requires
        weights.total() > 0,
    ensures
        ({
            let quota = disjoint_quota_of(weights, targets, kind);
            let total = weights.total();
            &&& quota.target_qps * total <= weights.of(kind) * targets.target_qps < (
            quota.target_qps + 1) * total
            &&& (quota.num_workers - 1) * total < weights.of(kind) * targets.num_workers
                <= quota.num_workers * total
            &&& quota.target_qps * targets.in_flight_ratio <= u64::MAX
                ==> quota.max_in_flight_ops == quota.target_qps * targets.in_flight_ratio
        }),
{
    let total = weights.total();
    let weight = weights.of(kind);
    crate::quota::lemma_share_within_amount(weight, total, targets.target_qps as int);
    crate::quota::lemma_share_within_amount(weight, total, targets.num_workers as int);
    crate::quota::lemma_floor_share_is_greatest(weight, total, targets.target_qps as int);
    crate::quota::lemma_ceil_share_is_least(weight, total, targets.num_workers as int);
}

/// Whatever way the budget is shared, the gas that is asked for the
/// shared-counter workload has a payload coin for every operation in
/// flight, hot or not. With a hotness factor of 100 or more it has no
/// counter at all, and with a hotness factor of 0 a counter for every
/// operation.
pub proof fn lemma_hotness_in_requests(
    mode: WorkloadConfiguration,
    weights: WeightVector,
    targets: Targets,
)
    ensures
        mode.gas_requests(weights, targets).shared_counter matches Some(gas) ==> {
            &&& gas.num_payloads == mode.shared_counter_max_ops(weights, targets)
            &&& gas.num_shared_counters <= gas.num_payloads
            &&& targets.shared_counter_hotness_factor >= 100 ==> gas.num_shared_counters == 0
            &&& targets.shared_counter_hotness_factor == 0 ==> gas.num_shared_counters
                == gas.num_payloads
        },
{
    let max_ops = mode.shared_counter_max_ops(weights, targets);
    crate::quota::lemma_distinct_counters_at_extremes(
        max_ops as int,
        targets.shared_counter_hotness_factor as int,
    );
    crate::quota::lemma_distinct_counters_within_max_ops(
        max_ops as int,
        targets.shared_counter_hotness_factor as int,
    );
}

/// A run of delegation alone, on a budget of its own: the other two kinds
/// get no gas and no workload. Where the targets let delegation run, it has
/// the whole budget, and the gas asked for it is a coin for each transfer
/// account, not for each operation.
pub proof fn lemma_delegation_alone(weights: WeightVector, targets: Targets)
    requires
        weights.shared_counter == 0,
        weights.transfer_object == 0,
        weights.delegation > 0,
    ensures
        ({
            let requests = WorkloadConfiguration::Disjoint.gas_requests(weights, targets);
            let workloads = WorkloadConfiguration::Disjoint.workloads(weights, targets);
            let quota = disjoint_quota_of(weights, targets, WorkloadKind::Delegation);
            &&& requests.shared_counter is None
            &&& requests.transfer_object is None
            &&& !workloads.builds(WorkloadKind::SharedCounter)
            &&& !workloads.builds(WorkloadKind::TransferObject)
            &&& quota.target_qps == targets.target_qps
            &&& quota.num_workers == targets.num_workers
            &&& combined_max_ops(targets) <= u64::MAX ==> quota == combined_quota_of(targets)
            &&& workloads.builds(WorkloadKind::Delegation) ==> requests.delegation == Some(
                DelegationGas { count: targets.num_transfer_accounts },
            )
            &&& targets.target_qps > 0 && targets.num_workers > 0 && targets.in_flight_ratio > 0
                && combined_max_ops(targets) <= u64::MAX ==> workloads.builds(
                WorkloadKind::Delegation,
            )
        }),
{
    lemma_zero_weight_is_elided(
        WorkloadConfiguration::Disjoint,
        weights,
        targets,
        WorkloadKind::SharedCounter,
    );
    lemma_zero_weight_is_elided(
        WorkloadConfiguration::Disjoint,
        weights,
        targets,
        WorkloadKind::TransferObject,
    );
    crate::quota::lemma_full_weight_has_all(weights.total(), targets.target_qps as int);
    crate::quota::lemma_full_weight_has_all(weights.total(), targets.num_workers as int);
    if targets.target_qps > 0 && targets.in_flight_ratio > 0 {
        assert(targets.target_qps * targets.in_flight_ratio > 0) by (nonlinear_arith)
            requires
                targets.target_qps > 0,
                targets.in_flight_ratio > 0,
        ;
    }
}

/// The gas that was generated for a kind for which the plan asks reaches the
/// endpoints whole and in order: the shares of the endpoints, put one behind
/// the other, are the list that was generated.
pub proof fn lemma_requested_gas_reaches_the_endpoints<T>(
    mode: WorkloadConfiguration,
    weights: WeightVector,
    targets: Targets,
    generated: GasConfigView<T>,
    which: GasList,
    num_proxies: int,
)
    requires
        mode.gas_requests(weights, targets).asks_for(which.kind()),
        0 < num_proxies,
    ensures
        generated.restricted_to(mode.gas_requests(weights, targets)).list_shares(
            which,
            num_proxies,
        ).flatten() == generated.list(which),
{
    let kept = generated.restricted_to(mode.gas_requests(weights, targets));
    crate::gas_config::lemma_restricted_list(generated, mode.gas_requests(weights, targets), which);
    crate::gas_config::lemma_shares_are_chunks(kept, which, num_proxies);
}

/// Of the gas of a kind without weight no endpoint gets anything, whatever
/// was generated.
pub proof fn lemma_zero_weight_gets_no_gas<T>(
    mode: WorkloadConfiguration,
    weights: WeightVector,
    targets: Targets,
    generated: GasConfigView<T>,
    which: GasList,
    num_proxies: int,
    i: int,
)
    requires
        weights.of(which.kind()) == 0,
        0 <= i < num_proxies,
    ensures
        generated.restricted_to(mode.gas_requests(weights, targets)).share(num_proxies, i).list(
            which,
        ) == Seq::<T>::empty(),
{
    lemma_zero_weight_is_elided(mode, weights, targets, which.kind());
    crate::gas_config::lemma_unrequested_list_is_empty(
        generated,
        mode.gas_requests(weights, targets),
        which,
        num_proxies,
        i,
    );
}

/// Without any weight at all nothing is allocated: no gas is asked for, and
/// on budgets of their own no kind gets a workload.
pub proof fn lemma_no_weight_no_allocation(
    mode: WorkloadConfiguration,
    weights: WeightVector,
    targets: Targets,
)
    requires
        weights.total() == 0,
    ensures
        !mode.gas_requests(weights, targets).asks_for(WorkloadKind::SharedCounter),
        !mode.gas_requests(weights, targets).asks_for(WorkloadKind::TransferObject),
        !mode.gas_requests(weights, targets).asks_for(WorkloadKind::Delegation),
        WorkloadConfiguration::Disjoint.workloads(weights, targets).count() == 0,
        !WorkloadConfiguration::Disjoint.workloads(weights, targets).builds(
            WorkloadKind::SharedCounter,
        ),
        !WorkloadConfiguration::Disjoint.workloads(weights, targets).builds(
            WorkloadKind::TransferObject,
        ),
        !WorkloadConfiguration::Disjoint.workloads(weights, targets).builds(
            WorkloadKind::Delegation,
        ),
{
    lemma_zero_weight_is_elided(mode, weights, targets, WorkloadKind::SharedCounter);
    lemma_zero_weight_is_elided(mode, weights, targets, WorkloadKind::TransferObject);
    lemma_zero_weight_is_elided(mode, weights, targets, WorkloadKind::Delegation);
}

/// A kind that has all the weight has the whole budget to itself.
pub proof fn lemma_sole_kind_has_whole_budget(
    weights: WeightVector,
    targets: Targets,
    kind: WorkloadKind,
)
    requires
        weights.of(kind) == weights.total(),
        weights.total() > 0,
        combined_max_ops(targets) <= u64::MAX,
    ensures
        disjoint_quota_of(weights, targets, kind) == combined_quota_of(targets),
{
    crate::quota::lemma_full_weight_has_all(weights.total(), targets.target_qps as int);
    crate::quota::lemma_full_weight_has_all(weights.total(), targets.num_workers as int);
}

} // verus!
