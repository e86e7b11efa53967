//! Which workloads are built on an endpoint, and which gas each of them gets.
//!
//! Every endpoint runs the same workloads on the same quotas; what differs
//! from endpoint to endpoint is the gas. Once the gas of an endpoint has been
//! provisioned, `Workloads::assemble` hands it to the workloads that use it.

use crate::quota::Quota;
use crate::quota::WeightVector;
use crate::quota::WorkloadKind;
use vstd::prelude::*;

verus! {

/// Gas that a workload spends while it is set up.
#[derive(PartialEq, Eq, Debug)]
pub struct WorkloadInitGas<G> {
    pub shared_counter_init_gas: Vec<G>,
}

/// Gas that workloads spend on their operations.
#[derive(PartialEq, Eq, Debug)]
pub struct WorkloadPayloadGas<G> {
    pub transfer_tokens: Vec<G>,
    pub transfer_object_payload_gas: Vec<G>,
    pub shared_counter_payload_gas: Vec<G>,
    pub delegation_payload_gas: Vec<G>,
}

/// What a `WorkloadInitGas` holds.
pub struct InitGasView<G> {
    pub shared_counter_init_gas: Seq<G>,
}

/// What a `WorkloadPayloadGas` holds.
pub struct PayloadGasView<G> {
    pub transfer_tokens: Seq<G>,
    pub transfer_object_payload_gas: Seq<G>,
    pub shared_counter_payload_gas: Seq<G>,
    pub delegation_payload_gas: Seq<G>,
}

impl<G> View for WorkloadInitGas<G> {
    type V = InitGasView<G>;

    open spec fn view(&self) -> InitGasView<G> {
        InitGasView { shared_counter_init_gas: self.shared_counter_init_gas@ }
    }
}

impl<G> View for WorkloadPayloadGas<G> {
    type V = PayloadGasView<G>;

    open spec fn view(&self) -> PayloadGasView<G> {
        PayloadGasView {
            transfer_tokens: self.transfer_tokens@,
            transfer_object_payload_gas: self.transfer_object_payload_gas@,
            shared_counter_payload_gas: self.shared_counter_payload_gas@,
            delegation_payload_gas: self.delegation_payload_gas@,
        }
    }
}

impl<G> InitGasView<G> {
    /// No gas.
    pub open spec fn empty() -> InitGasView<G> {
        InitGasView { shared_counter_init_gas: Seq::empty() }
    }
}

impl<G> PayloadGasView<G> {
    /// The part that the shared-counter workload spends.
    pub open spec fn for_shared_counter(self) -> PayloadGasView<G> {
        PayloadGasView {
            transfer_tokens: Seq::empty(),
            transfer_object_payload_gas: Seq::empty(),
            shared_counter_payload_gas: self.shared_counter_payload_gas,
            delegation_payload_gas: Seq::empty(),
        }
    }

    /// The part that the transfer workload spends.
    pub open spec fn for_transfer_object(self) -> PayloadGasView<G> {
        PayloadGasView {
            transfer_tokens: self.transfer_tokens,
            transfer_object_payload_gas: self.transfer_object_payload_gas,
            shared_counter_payload_gas: Seq::empty(),
            delegation_payload_gas: Seq::empty(),
        }
    }

    /// The part that the delegation workload spends.
    pub open spec fn for_delegation(self) -> PayloadGasView<G> {
        PayloadGasView {
            transfer_tokens: Seq::empty(),
            transfer_object_payload_gas: Seq::empty(),
            shared_counter_payload_gas: Seq::empty(),
            delegation_payload_gas: self.delegation_payload_gas,
        }
    }
}

/// A workload that can be built, with what it is told beyond its quota.
#[derive(Clone, Copy, PartialEq, Eq, Debug)]
pub enum WorkloadType {
    /// Updates of shared counters.
    SharedCounter,
    /// Transfers of objects among `num_transfer_accounts` accounts.
    TransferObject { num_transfer_accounts: u64 },
    /// Delegation.
    Delegation,
    /// All kinds in one workload, which balances them by `weights` itself.
    Combination { in_flight_ratio: u64, num_transfer_accounts: u64, weights: WeightVector },
}

/// One workload to build on an endpoint.
#[derive(PartialEq, Eq, Debug)]
pub struct WorkloadOrder<G> {
    pub workload: WorkloadType,
    pub quota: Quota,
    /// The gas that the workload spends on its operations.
    pub payload_gas: WorkloadPayloadGas<G>,
    /// The gas with which the workload is set up; empty for a workload that
    /// spends none on that.
    pub init_gas: WorkloadInitGas<G>,
}

/// What a `WorkloadOrder` holds.
pub struct WorkloadOrderView<G> {
    pub workload: WorkloadType,
    pub quota: Quota,
    pub payload_gas: PayloadGasView<G>,
    pub init_gas: InitGasView<G>,
}

impl<G> View for WorkloadOrder<G> {
    type V = WorkloadOrderView<G>;

    open spec fn view(&self) -> WorkloadOrderView<G> {
        WorkloadOrderView {
            workload: self.workload,
            quota: self.quota,
            payload_gas: self.payload_gas@,
            init_gas: self.init_gas@,
        }
    }
}

/// What the orders in `orders` hold, one by one.
pub open spec fn order_views<G>(orders: Seq<WorkloadOrder<G>>) -> Seq<WorkloadOrderView<G>> {
    Seq::new(orders.len(), |i: int| orders[i]@)
}

/// The workloads that every endpoint of a run gets.
#[derive(Clone, Copy, PartialEq, Eq, Debug)]
pub enum Workloads {
    /// One workload that runs all kinds on one budget.
    Combined { quota: Quota, in_flight_ratio: u64, num_transfer_accounts: u64, weights: WeightVector },
    /// A workload for each kind, on a budget of its own. A kind whose quota is
    /// degenerate gets no workload.
    Disjoint {
        shared_counter: Quota,
        transfer_object: Quota,
        delegation: Quota,
        num_transfer_accounts: u64,
    },
}

/// The order for the shared-counter workload on `quota`, if it can run.
pub open spec fn shared_counter_orders<G>(
    quota: Quota,
    init_gas: InitGasView<G>,
    payload_gas: PayloadGasView<G>,
) -> Seq<WorkloadOrderView<G>> {
    if quota.degenerate() {
        Seq::empty()
    } else {
        seq![
            WorkloadOrderView {
                workload: WorkloadType::SharedCounter,
                quota,
                payload_gas: payload_gas.for_shared_counter(),
                init_gas,
            },
        ]
    }
}

/// The order for the transfer workload on `quota`, if it can run.
pub open spec fn transfer_object_orders<G>(
    quota: Quota,
    num_transfer_accounts: u64,
    payload_gas: PayloadGasView<G>,
) -> Seq<WorkloadOrderView<G>> {
    if quota.degenerate() {
        Seq::empty()
    } else {
        seq![
            WorkloadOrderView {
                workload: WorkloadType::TransferObject { num_transfer_accounts },
                quota,
                payload_gas: payload_gas.for_transfer_object(),
                init_gas: InitGasView::empty(),
            },
        ]
    }
}

/// The order for the delegation workload on `quota`, if it can run.
pub open spec fn delegation_orders<G>(quota: Quota, payload_gas: PayloadGasView<G>) -> Seq<
    WorkloadOrderView<G>,
> {
    if quota.degenerate() {
        Seq::empty()
    } else {
        seq![
            WorkloadOrderView {
                workload: WorkloadType::Delegation,
                quota,
                payload_gas: payload_gas.for_delegation(),
                init_gas: InitGasView::empty(),
            },
        ]
    }
}

impl Workloads {
    /// The workloads of one endpoint, in the order in which they are built,
    /// each with its part of the endpoint's gas.
    ///
    /// In a combined run there is one workload and it gets all the gas. In a
    /// disjoint run the shared-counter workload comes first, then the transfer
    /// workload, then delegation, each only if its quota lets it run. Every
    /// workload is set up before it counts as built: the shared-counter
    /// workload with the init gas of the endpoint, the other two with none.
    /// Gas of a kind that gets no workload is dropped.
    pub open spec fn orders<G>(
        self,
        init_gas: InitGasView<G>,
        payload_gas: PayloadGasView<G>,
    ) -> Seq<WorkloadOrderView<G>> {
        match self {
            Workloads::Combined { quota, in_flight_ratio, num_transfer_accounts, weights } => seq![
                WorkloadOrderView {
                    workload: WorkloadType::Combination {
                        in_flight_ratio,
                        num_transfer_accounts,
                        weights,
                    },
                    quota,
                    payload_gas,
                    init_gas,
                },
            ],
            Workloads::Disjoint {
                shared_counter,
                transfer_object,
                delegation,
                num_transfer_accounts,
            } => shared_counter_orders(shared_counter, init_gas, payload_gas)
                + transfer_object_orders(transfer_object, num_transfer_accounts, payload_gas)
                + delegation_orders(delegation, payload_gas),
        }
    }

    /// Whether every endpoint gets a workload for `kind`. Where all kinds
    /// share one budget, the one workload runs every kind that has a weight.
    pub open spec fn builds(self, kind: WorkloadKind) -> bool {
        match self {
            Workloads::Combined { weights, .. } => weights.of(kind) > 0,
            Workloads::Disjoint { shared_counter, transfer_object, delegation, .. } => match kind {
                WorkloadKind::SharedCounter => !shared_counter.degenerate(),
                WorkloadKind::TransferObject => !transfer_object.degenerate(),
                WorkloadKind::Delegation => !delegation.degenerate(),
            },
        }
    }

    /// How many workloads every endpoint gets.
    pub open spec fn count(self) -> int {
        match self {
            Workloads::Combined { .. } => 1,
            Workloads::Disjoint { shared_counter, transfer_object, delegation, .. } => (if shared_counter.degenerate() {
                0int
            } else {
                1int
            }) + (if transfer_object.degenerate() {
                0int
            } else {
                1int
            }) + (if delegation.degenerate() {
                0int
            } else {
                1int
            }),
        }
    }

    /// Hands the gas that was provisioned for one endpoint to the workloads
    /// of that endpoint.
    pub fn assemble<G>(
        &self,
        init_gas: WorkloadInitGas<G>,
        payload_gas: WorkloadPayloadGas<G>,
    ) -> (orders: Vec<WorkloadOrder<G>>)
        ensures
            order_views(orders@) == self.orders(init_gas@, payload_gas@),
            orders@.len() == self.count(),
    {
        let ghost init_view = init_gas@;
        let ghost payload_view = payload_gas@;
        let mut orders: Vec<WorkloadOrder<G>> = Vec::new();
        match *self {
            Workloads::Combined { quota, in_flight_ratio, num_transfer_accounts, weights } => {
                orders.push(
                    WorkloadOrder {
                        workload: WorkloadType::Combination {
                            in_flight_ratio,
                            num_transfer_accounts,
                            weights,
                        },
                        quota,
                        payload_gas,
                        init_gas,
                    },
                );
            },
            Workloads::Disjoint {
                shared_counter,
                transfer_object,
                delegation,
                num_transfer_accounts,
            } => {
                let WorkloadPayloadGas {
                    transfer_tokens,
                    transfer_object_payload_gas,
                    shared_counter_payload_gas,
                    delegation_payload_gas,
                } = payload_gas;
                if !shared_counter.is_degenerate() {
                    orders.push(
                        WorkloadOrder {
                            workload: WorkloadType::SharedCounter,
                            quota: shared_counter,
                            payload_gas: WorkloadPayloadGas {
                                transfer_tokens: Vec::new(),
                                transfer_object_payload_gas: Vec::new(),
                                shared_counter_payload_gas,
                                delegation_payload_gas: Vec::new(),
                            },
                            init_gas,
                        },
                    );
                }
                assert(order_views(orders@) =~= shared_counter_orders(
                    shared_counter,
                    init_view,
                    payload_view,
                ));
                if !transfer_object.is_degenerate() {
                    orders.push(
                        WorkloadOrder {
                            workload: WorkloadType::TransferObject { num_transfer_accounts },
                            quota: transfer_object,
                            payload_gas: WorkloadPayloadGas {
                                transfer_tokens,
                                transfer_object_payload_gas,
                                shared_counter_payload_gas: Vec::new(),
                                delegation_payload_gas: Vec::new(),
                            },
                            init_gas: WorkloadInitGas { shared_counter_init_gas: Vec::new() },
                        },
                    );
                }
                assert(order_views(orders@) =~= shared_counter_orders(
                    shared_counter,
                    init_view,
                    payload_view,
                ) + transfer_object_orders(transfer_object, num_transfer_accounts, payload_view));
                if !delegation.is_degenerate() {
                    orders.push(
                        WorkloadOrder {
                            workload: WorkloadType::Delegation,
                            quota: delegation,
                            payload_gas: WorkloadPayloadGas {
                                transfer_tokens: Vec::new(),
                                transfer_object_payload_gas: Vec::new(),
                                shared_counter_payload_gas: Vec::new(),
                                delegation_payload_gas,
                            },
                            init_gas: WorkloadInitGas { shared_counter_init_gas: Vec::new() },
                        },
                    );
                }
            },
        }
        assert(order_views(orders@) =~= self.orders(init_view, payload_view));
        orders
    }
}

impl WorkloadType {
    /// The kind that the workload runs, if it runs one kind only.
    pub open spec fn kind(self) -> Option<WorkloadKind> {
        match self {
            WorkloadType::SharedCounter => Some(WorkloadKind::SharedCounter),
            WorkloadType::TransferObject { .. } => Some(WorkloadKind::TransferObject),
            WorkloadType::Delegation => Some(WorkloadKind::Delegation),
            WorkloadType::Combination { .. } => None,
        }
    }
}

/// Every workload of an endpoint is set up. The init gas of the endpoint
/// goes to the shared-counter workload, or to the one workload that runs
/// all kinds; a transfer or a delegation workload is set up without gas.
pub proof fn lemma_every_order_is_set_up<G>(
    workloads: Workloads,
    init_gas: InitGasView<G>,
    payload_gas: PayloadGasView<G>,
    i: int,
)
    requires
        0 <= i < workloads.orders(init_gas, payload_gas).len(),
    ensures
        ({
            let order = workloads.orders(init_gas, payload_gas)[i];
            order.init_gas == if order.workload is TransferObject || order.workload is Delegation {
                InitGasView::empty()
            } else {
                init_gas
            }
        }),
{
}

/// On budgets of their own, the workloads of an endpoint are those of the
/// kinds that the run builds, one for each, in the order shared counter,
/// transfer, delegation.
pub proof fn lemma_disjoint_orders_are_the_kinds_built<G>(
    workloads: Workloads,
    init_gas: InitGasView<G>,
    payload_gas: PayloadGasView<G>,
)
    requires
        workloads is Disjoint,
    ensures
        workloads.orders(init_gas, payload_gas).len() == workloads.count(),
        forall|kind: WorkloadKind|
            workloads.builds(kind) <==> exists|i: int|
                0 <= i < workloads.orders(init_gas, payload_gas).len() && (
                #[trigger] workloads.orders(init_gas, payload_gas)[i]).workload.kind() == Some(
                    kind,
                ),
        forall|i: int, j: int|
            0 <= i < j < workloads.orders(init_gas, payload_gas).len() ==> kind_rank(
                (#[trigger] workloads.orders(init_gas, payload_gas)[i]).workload,
            ) < kind_rank((#[trigger] workloads.orders(init_gas, payload_gas)[j]).workload),
{
    let orders = workloads.orders(init_gas, payload_gas);
    let counter = shared_counter_orders(workloads->shared_counter, init_gas, payload_gas);
    let transfer = transfer_object_orders(
        workloads->transfer_object,
        workloads->Disjoint_num_transfer_accounts,
        payload_gas,
    );
    let delegation = delegation_orders(workloads->delegation, payload_gas);
    assert(orders == counter + transfer + delegation);
    assert forall|kind: WorkloadKind| workloads.builds(kind) implies exists|i: int|
        0 <= i < orders.len() && (#[trigger] orders[i]).workload.kind() == Some(kind) by {
        match kind {
            WorkloadKind::SharedCounter => {
                assert(orders[0].workload.kind() == Some(kind));
            },
            WorkloadKind::TransferObject => {
                assert(orders[counter.len() as int].workload.kind() == Some(kind));
            },
            WorkloadKind::Delegation => {
                assert(orders[(counter.len() + transfer.len()) as int].workload.kind() == Some(kind));
            },
        }
    }
}

/// The place of a workload among those of an endpoint.
pub open spec fn kind_rank(workload: WorkloadType) -> int {
    match workload {
        WorkloadType::SharedCounter => 0,
        WorkloadType::TransferObject { .. } => 1,
        WorkloadType::Delegation => 2,
        WorkloadType::Combination { .. } => 0,
    }
}

} // verus!
