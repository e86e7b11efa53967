use workload_configuration::{
    Outcome, Quota, Step, Targets, WeightVector, WorkloadConfiguration, WorkloadGasConfig,
    WorkloadInitGas, WorkloadOrder, WorkloadPayloadGas, WorkloadType, Workloads,
};

fn init_gas() -> WorkloadInitGas<&'static str> {
    WorkloadInitGas { shared_counter_init_gas: vec!["init-0", "init-1"] }
}

fn payload_gas() -> WorkloadPayloadGas<&'static str> {
    WorkloadPayloadGas {
        transfer_tokens: vec!["token-0"],
        transfer_object_payload_gas: vec!["transfer-0", "transfer-1"],
        shared_counter_payload_gas: vec!["counter-0", "counter-1", "counter-2"],
        delegation_payload_gas: vec!["delegation-0"],
    }
}

fn no_payload_gas() -> WorkloadPayloadGas<&'static str> {
    WorkloadPayloadGas {
        transfer_tokens: vec![],
        transfer_object_payload_gas: vec![],
        shared_counter_payload_gas: vec![],
        delegation_payload_gas: vec![],
    }
}

const SOME: Quota = Quota { target_qps: 10, num_workers: 2, max_in_flight_ops: 20 };
const MORE: Quota = Quota { target_qps: 30, num_workers: 3, max_in_flight_ops: 60 };
const MOST: Quota = Quota { target_qps: 60, num_workers: 5, max_in_flight_ops: 120 };
const NONE: Quota = Quota { target_qps: 0, num_workers: 1, max_in_flight_ops: 0 };

fn counter_order(quota: Quota) -> WorkloadOrder<&'static str> {
    WorkloadOrder {
        workload: WorkloadType::SharedCounter,
        quota,
        payload_gas: WorkloadPayloadGas {
            shared_counter_payload_gas: vec!["counter-0", "counter-1", "counter-2"],
            ..no_payload_gas()
        },
        init_gas: init_gas(),
    }
}

fn transfer_order(quota: Quota, num_transfer_accounts: u64) -> WorkloadOrder<&'static str> {
    WorkloadOrder {
        workload: WorkloadType::TransferObject { num_transfer_accounts },
        quota,
        payload_gas: WorkloadPayloadGas {
            transfer_tokens: vec!["token-0"],
            transfer_object_payload_gas: vec!["transfer-0", "transfer-1"],
            ..no_payload_gas()
        },
        init_gas: WorkloadInitGas { shared_counter_init_gas: vec![] },
    }
}

fn delegation_order(quota: Quota) -> WorkloadOrder<&'static str> {
    WorkloadOrder {
        workload: WorkloadType::Delegation,
        quota,
        payload_gas: WorkloadPayloadGas {
            delegation_payload_gas: vec!["delegation-0"],
            ..no_payload_gas()
        },
        init_gas: WorkloadInitGas { shared_counter_init_gas: vec![] },
    }
}

#[test]
fn disjoint_workloads_each_get_their_own_gas() {
    let workloads = Workloads::Disjoint {
        shared_counter: SOME,
        transfer_object: MORE,
        delegation: MOST,
        num_transfer_accounts: 7,
    };
    assert_eq!(
        workloads.assemble(init_gas(), payload_gas()),
        vec![counter_order(SOME), transfer_order(MORE, 7), delegation_order(MOST)]
    );
}

#[test]
fn disjoint_workload_on_a_degenerate_quota_is_not_built() {
    let without_counter = Workloads::Disjoint {
        shared_counter: NONE,
        transfer_object: MORE,
        delegation: MOST,
        num_transfer_accounts: 7,
    };
    assert_eq!(
        without_counter.assemble(init_gas(), payload_gas()),
        vec![transfer_order(MORE, 7), delegation_order(MOST)]
    );
    let without_transfer = Workloads::Disjoint {
        shared_counter: SOME,
        transfer_object: Quota { target_qps: 5, num_workers: 0, max_in_flight_ops: 5 },
        delegation: MOST,
        num_transfer_accounts: 7,
    };
    assert_eq!(
        without_transfer.assemble(init_gas(), payload_gas()),
        vec![counter_order(SOME), delegation_order(MOST)]
    );
    let without_delegation = Workloads::Disjoint {
        shared_counter: SOME,
        transfer_object: MORE,
        delegation: Quota { target_qps: 5, num_workers: 5, max_in_flight_ops: 0 },
        num_transfer_accounts: 7,
    };
    assert_eq!(
        without_delegation.assemble(init_gas(), payload_gas()),
        vec![counter_order(SOME), transfer_order(MORE, 7)]
    );
}

#[test]
fn disjoint_run_without_any_quota_builds_nothing() {
    let workloads = Workloads::Disjoint {
        shared_counter: NONE,
        transfer_object: NONE,
        delegation: NONE,
        num_transfer_accounts: 7,
    };
    assert!(workloads.assemble(init_gas(), payload_gas()).is_empty());
}

#[test]
fn delegation_is_built_even_without_coins_of_its_own() {
    let workloads = Workloads::Disjoint {
        shared_counter: NONE,
        transfer_object: NONE,
        delegation: SOME,
        num_transfer_accounts: 0,
    };
    let orders = workloads.assemble(
        WorkloadInitGas { shared_counter_init_gas: vec![] },
        no_payload_gas(),
    );
    assert_eq!(
        orders,
        vec![WorkloadOrder {
            workload: WorkloadType::Delegation,
            quota: SOME,
            payload_gas: no_payload_gas(),
            init_gas: WorkloadInitGas { shared_counter_init_gas: vec![] },
        }]
    );
}

#[test]
fn every_disjoint_workload_is_set_up_and_only_counters_with_gas() {
    let workloads = Workloads::Disjoint {
        shared_counter: SOME,
        transfer_object: MORE,
        delegation: MOST,
        num_transfer_accounts: 7,
    };
    let orders = workloads.assemble(init_gas(), payload_gas());
    assert_eq!(orders.len(), 3usize);
    assert_eq!(orders[0].init_gas, init_gas());
    assert!(orders[1].init_gas.shared_counter_init_gas.is_empty());
    assert!(orders[2].init_gas.shared_counter_init_gas.is_empty());
}

#[test]
fn combined_workload_gets_all_the_gas() {
    let weights = WeightVector { shared_counter: 1, transfer_object: 2, delegation: 3 };
    let workloads = Workloads::Combined {
        quota: MOST,
        in_flight_ratio: 2,
        num_transfer_accounts: 7,
        weights,
    };
    assert_eq!(
        workloads.assemble(init_gas(), payload_gas()),
        vec![WorkloadOrder {
            workload: WorkloadType::Combination {
                in_flight_ratio: 2,
                num_transfer_accounts: 7,
                weights,
            },
            quota: MOST,
            payload_gas: payload_gas(),
            init_gas: init_gas(),
        }]
    );
}

#[test]
fn combined_workload_is_built_whatever_the_quota() {
    let weights = WeightVector { shared_counter: 0, transfer_object: 0, delegation: 0 };
    let workloads = Workloads::Combined {
        quota: NONE,
        in_flight_ratio: 0,
        num_transfer_accounts: 0,
        weights,
    };
    assert_eq!(workloads.assemble(init_gas(), payload_gas()).len(), 1usize);
}

/// Goes through a whole run as a caller would: generate, deal out, then
/// provision and assemble endpoint by endpoint. Provisioning hands every coin
/// back as it is; `fail_at` names an endpoint whose provisioning fails.
fn run(
    mode: WorkloadConfiguration,
    num_proxies: usize,
    fail_at: Option<usize>,
) -> Option<Vec<(usize, Vec<WorkloadOrder<u64>>)>> {
    let weights = WeightVector { shared_counter: 1, transfer_object: 1, delegation: 0 };
    let targets = Targets {
        target_qps: 6,
        num_workers: 4,
        in_flight_ratio: 1,
        num_transfer_accounts: 1,
        shared_counter_hotness_factor: 0,
    };
    let plan = mode.configure(&weights, &targets, num_proxies);
    let mut generated = WorkloadGasConfig::new();
    if let Some(gas) = plan.gas_requests.shared_counter {
        generated.shared_counter_workload_init_gas_config =
            (100..100 + gas.num_shared_counters).collect();
        generated.shared_counter_workload_payload_gas_config =
            (200..200 + gas.num_payloads).collect();
    }
    if let Some(gas) = plan.gas_requests.transfer_object {
        generated.transfer_object_workload_tokens = (300..300 + gas.num_tokens).collect();
        generated.transfer_object_workload_payload_gas_config =
            (400..400 + gas.num_payloads).collect();
    }
    let mut shares = plan.gas_configs(generated).into_iter();
    let mut provisioned: Option<(WorkloadInitGas<u64>, WorkloadPayloadGas<u64>)> = None;
    let mut configured: Vec<(usize, Vec<WorkloadOrder<u64>>)> = Vec::new();
    let mut sequencer = plan.sequencer();
    loop {
        match sequencer.step() {
            Step::Provision { endpoint } => {
                let share = shares.next().unwrap();
                if fail_at == Some(endpoint) {
                    sequencer = sequencer.advance(Outcome::Failed);
                } else {
                    provisioned = Some((
                        WorkloadInitGas {
                            shared_counter_init_gas: share.shared_counter_workload_init_gas_config,
                        },
                        WorkloadPayloadGas {
                            transfer_tokens: share.transfer_object_workload_tokens,
                            transfer_object_payload_gas: share
                                .transfer_object_workload_payload_gas_config,
                            shared_counter_payload_gas: share
                                .shared_counter_workload_payload_gas_config,
                            delegation_payload_gas: share.delegation_gas_configs,
                        },
                    ));
                    sequencer = sequencer.advance(Outcome::Completed);
                }
            }
            Step::Assemble { endpoint } => {
                let (init, payload) = provisioned.take().unwrap();
                configured.push((endpoint, plan.assemble(init, payload)));
                sequencer = sequencer.advance(Outcome::Completed);
            }
            Step::Finished => return Some(configured),
            Step::Aborted => return None,
        }
    }
}

#[test]
fn whole_disjoint_run_pairs_each_endpoint_with_its_share() {
    let configured = run(WorkloadConfiguration::Disjoint, 2, None).unwrap();
    let quota = Quota { target_qps: 3, num_workers: 2, max_in_flight_ops: 3 };
    let endpoints: Vec<usize> = configured.iter().map(|(endpoint, _)| *endpoint).collect();
    assert_eq!(endpoints, vec![0usize, 1]);
    assert_eq!(
        configured[0].1,
        vec![
            WorkloadOrder {
                workload: WorkloadType::SharedCounter,
                quota,
                payload_gas: WorkloadPayloadGas {
                    transfer_tokens: vec![],
                    transfer_object_payload_gas: vec![],
                    shared_counter_payload_gas: vec![200u64, 201],
                    delegation_payload_gas: vec![],
                },
                init_gas: WorkloadInitGas { shared_counter_init_gas: vec![100u64, 101] },
            },
            WorkloadOrder {
                workload: WorkloadType::TransferObject { num_transfer_accounts: 1 },
                quota,
                payload_gas: WorkloadPayloadGas {
                    transfer_tokens: vec![300u64, 301],
                    transfer_object_payload_gas: vec![400u64, 401],
                    shared_counter_payload_gas: vec![],
                    delegation_payload_gas: vec![],
                },
                init_gas: WorkloadInitGas { shared_counter_init_gas: vec![] },
            },
        ]
    );
    assert_eq!(configured[1].1[0].payload_gas.shared_counter_payload_gas, vec![202u64]);
    assert_eq!(configured[1].1[1].payload_gas.transfer_tokens, vec![302u64]);
}

#[test]
fn whole_combined_run_builds_one_workload_on_each_endpoint() {
    let configured = run(WorkloadConfiguration::Combined, 3, None).unwrap();
    assert_eq!(configured.len(), 3usize);
    for (i, (endpoint, orders)) in configured.iter().enumerate() {
        assert_eq!(*endpoint, i);
        assert_eq!(orders.len(), 1usize);
        assert_eq!(
            orders[0].quota,
            Quota { target_qps: 6, num_workers: 4, max_in_flight_ops: 6 }
        );
        assert_eq!(orders[0].payload_gas.shared_counter_payload_gas.len(), 2usize);
        assert_eq!(orders[0].payload_gas.transfer_tokens.len(), 2usize);
    }
}

#[test]
fn whole_run_that_fails_configures_nothing() {
    assert_eq!(run(WorkloadConfiguration::Disjoint, 3, Some(0)), None);
    assert_eq!(run(WorkloadConfiguration::Disjoint, 3, Some(2)), None);
    assert_eq!(run(WorkloadConfiguration::Combined, 3, Some(1)), None);
}
