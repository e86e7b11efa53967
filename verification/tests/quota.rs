use workload_configuration::quota::{
    combined_quota, combined_quota_fits, disjoint_quota, disjoint_quota_fits, num_shared_counters,
};
use workload_configuration::{Quota, Targets, WeightVector, WorkloadKind};

fn targets(target_qps: u64, num_workers: u64, in_flight_ratio: u64) -> Targets {
    Targets {
        target_qps,
        num_workers,
        in_flight_ratio,
        num_transfer_accounts: 2,
        shared_counter_hotness_factor: 50,
    }
}

fn weights(shared_counter: u32, transfer_object: u32, delegation: u32) -> WeightVector {
    WeightVector { shared_counter, transfer_object, delegation }
}

#[test]
fn weight_vector_sum_and_lookup() {
    let w = weights(3, 4, 5);
    assert_eq!(w.sum(), 12u64);
    assert_eq!(w.weight(WorkloadKind::SharedCounter), 3u32);
    assert_eq!(w.weight(WorkloadKind::TransferObject), 4u32);
    assert_eq!(w.weight(WorkloadKind::Delegation), 5u32);
}

#[test]
fn weight_vector_sum_does_not_wrap() {
    let w = weights(u32::MAX, u32::MAX, u32::MAX);
    assert_eq!(w.sum(), 3u64 * (u32::MAX as u64));
}

#[test]
fn shares_round_down_and_up_for_any_amount() {
    let w = weights(1, 1, 1);
    assert_eq!(w.share_rounded_down(WorkloadKind::SharedCounter, 100), 33u64);
    assert_eq!(w.share_rounded_up(WorkloadKind::SharedCounter, 100), 34u64);
    assert_eq!(w.share_rounded_down(WorkloadKind::Delegation, 99), 33u64);
    assert_eq!(w.share_rounded_up(WorkloadKind::Delegation, 99), 33u64);
    assert_eq!(w.share_rounded_down(WorkloadKind::TransferObject, 2), 0u64);
    assert_eq!(w.share_rounded_up(WorkloadKind::TransferObject, 2), 1u64);
    assert_eq!(w.share_rounded_down(WorkloadKind::TransferObject, u64::MAX), u64::MAX / 3);
    assert_eq!(w.share_rounded_up(WorkloadKind::TransferObject, u64::MAX), u64::MAX / 3);
    assert_eq!(w.share_rounded_up(WorkloadKind::TransferObject, u64::MAX - 1), u64::MAX / 3);
    assert_eq!(w.share_rounded_down(WorkloadKind::TransferObject, u64::MAX - 1), u64::MAX / 3 - 1);
    let nothing = weights(0, 0, 0);
    assert_eq!(nothing.share_rounded_down(WorkloadKind::SharedCounter, 100), 0u64);
    assert_eq!(nothing.share_rounded_up(WorkloadKind::SharedCounter, 100), 0u64);
    let all = weights(0, 7, 0);
    assert_eq!(all.share_rounded_down(WorkloadKind::TransferObject, u64::MAX), u64::MAX);
    assert_eq!(all.share_rounded_up(WorkloadKind::TransferObject, u64::MAX), u64::MAX);
    assert_eq!(all.share_rounded_up(WorkloadKind::Delegation, u64::MAX), 0u64);
}

#[test]
fn even_weights_halve_the_budget() {
    let quota = disjoint_quota(&weights(1, 1, 0), &targets(100, 4, 2), WorkloadKind::SharedCounter);
    assert_eq!(quota, Quota { target_qps: 50, num_workers: 2, max_in_flight_ops: 100 });
}

#[test]
fn third_of_the_budget_rounds_qps_down_and_workers_up() {
    let t = targets(100, 4, 2);
    let w = weights(1, 1, 1);
    for kind in [WorkloadKind::SharedCounter, WorkloadKind::TransferObject, WorkloadKind::Delegation] {
        let quota = disjoint_quota(&w, &t, kind);
        assert_eq!(quota.target_qps, 33u64);
        assert_eq!(quota.num_workers, 2u64);
        assert_eq!(quota.max_in_flight_ops, 66u64);
    }
}

#[test]
fn two_thirds_of_the_budget() {
    let quota = disjoint_quota(&weights(2, 1, 0), &targets(100, 4, 3), WorkloadKind::SharedCounter);
    assert_eq!(quota, Quota { target_qps: 66, num_workers: 3, max_in_flight_ops: 198 });
    let other = disjoint_quota(&weights(2, 1, 0), &targets(100, 4, 3), WorkloadKind::TransferObject);
    assert_eq!(other, Quota { target_qps: 33, num_workers: 2, max_in_flight_ops: 99 });
}

#[test]
fn exact_share_is_not_rounded() {
    let quota = disjoint_quota(&weights(1, 3, 0), &targets(100, 8, 1), WorkloadKind::SharedCounter);
    assert_eq!(quota, Quota { target_qps: 25, num_workers: 2, max_in_flight_ops: 25 });
}

#[test]
fn workers_round_up_to_one_where_qps_round_down_to_nothing() {
    let quota = disjoint_quota(&weights(1, 99, 0), &targets(50, 10, 4), WorkloadKind::SharedCounter);
    assert_eq!(quota, Quota { target_qps: 0, num_workers: 1, max_in_flight_ops: 0 });
    assert!(quota.is_degenerate());
}

#[test]
fn kind_without_weight_has_no_quota() {
    let quota = disjoint_quota(&weights(7, 0, 9), &targets(1000, 64, 5), WorkloadKind::TransferObject);
    assert_eq!(quota, Quota { target_qps: 0, num_workers: 0, max_in_flight_ops: 0 });
    assert!(quota.is_degenerate());
}

#[test]
fn no_weight_at_all_gives_no_quota() {
    let t = targets(1000, 64, 5);
    let w = weights(0, 0, 0);
    for kind in [WorkloadKind::SharedCounter, WorkloadKind::TransferObject, WorkloadKind::Delegation] {
        assert_eq!(
            disjoint_quota(&w, &t, kind),
            Quota { target_qps: 0, num_workers: 0, max_in_flight_ops: 0 }
        );
    }
}

#[test]
fn sole_kind_has_the_whole_budget() {
    let t = targets(16_777_217, 9, 3);
    let quota = disjoint_quota(&weights(0, 0, 5), &t, WorkloadKind::Delegation);
    assert_eq!(
        quota,
        Quota { target_qps: 16_777_217, num_workers: 9, max_in_flight_ops: 50_331_651 }
    );
    assert_eq!(quota, combined_quota(&t));
}

#[test]
fn large_targets_do_not_overflow_on_the_way() {
    let t = targets(u64::MAX, u64::MAX, 1);
    let w = weights(u32::MAX, u32::MAX, 0);
    let quota = disjoint_quota(&w, &t, WorkloadKind::SharedCounter);
    assert_eq!(quota.target_qps, u64::MAX / 2);
    assert_eq!(quota.num_workers, u64::MAX / 2 + 1);
    assert_eq!(quota.max_in_flight_ops, u64::MAX / 2);
}

#[test]
fn combined_quota_is_the_whole_budget() {
    let quota = combined_quota(&targets(100, 4, 2));
    assert_eq!(quota, Quota { target_qps: 100, num_workers: 4, max_in_flight_ops: 200 });
}

#[test]
fn quota_fits_tells_overflow_apart() {
    assert!(combined_quota_fits(&targets(u64::MAX, 1, 1)));
    assert!(!combined_quota_fits(&targets(u64::MAX, 1, 2)));
    assert!(combined_quota_fits(&targets(0, 1, u64::MAX)));
    let t = targets(u64::MAX, 1, 2);
    assert!(disjoint_quota_fits(&weights(1, 1, 0), &t, WorkloadKind::SharedCounter));
    assert!(disjoint_quota_fits(&weights(1, 1, 0), &t, WorkloadKind::Delegation));
    assert!(!disjoint_quota_fits(&weights(1, 0, 0), &t, WorkloadKind::SharedCounter));
    assert!(disjoint_quota_fits(&weights(1, 0, 0), &t, WorkloadKind::TransferObject));
}

#[test]
fn degenerate_quota_has_a_zero_somewhere() {
    assert!(Quota { target_qps: 0, num_workers: 1, max_in_flight_ops: 1 }.is_degenerate());
    assert!(Quota { target_qps: 1, num_workers: 0, max_in_flight_ops: 1 }.is_degenerate());
    assert!(Quota { target_qps: 1, num_workers: 1, max_in_flight_ops: 0 }.is_degenerate());
    assert!(!Quota { target_qps: 1, num_workers: 1, max_in_flight_ops: 1 }.is_degenerate());
}

#[test]
fn hotness_of_a_hundred_leaves_no_counter() {
    assert_eq!(num_shared_counters(200, 100), 0u64);
    assert_eq!(num_shared_counters(u64::MAX, 100), 0u64);
}

#[test]
fn hotness_above_a_hundred_counts_as_a_hundred() {
    assert_eq!(num_shared_counters(200, 101), 0u64);
    assert_eq!(num_shared_counters(200, u32::MAX), 0u64);
}

#[test]
fn hotness_of_zero_gives_every_operation_a_counter() {
    assert_eq!(num_shared_counters(200, 0), 200u64);
    assert_eq!(num_shared_counters(0, 0), 0u64);
    assert_eq!(num_shared_counters(u64::MAX, 0), u64::MAX);
}

#[test]
fn hotness_in_between_rounds_down() {
    assert_eq!(num_shared_counters(200, 50), 100u64);
    assert_eq!(num_shared_counters(101, 50), 50u64);
    assert_eq!(num_shared_counters(10, 75), 2u64);
    assert_eq!(num_shared_counters(3, 99), 0u64);
    assert_eq!(num_shared_counters(100, 1), 99u64);
}
