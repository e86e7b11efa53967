//! Turning weights and targets into the quota of each workload kind.

use vstd::prelude::*;

verus! {

/// The kinds of workload that a run can mix.
#[derive(Clone, Copy, PartialEq, Eq, Debug, Structural)]
pub enum WorkloadKind {
    SharedCounter,
    TransferObject,
    Delegation,
}

/// Relative emphasis of the three workload kinds.
#[derive(Clone, Copy, PartialEq, Eq, Debug, Structural)]
pub struct WeightVector {
    pub shared_counter: u32,
    pub transfer_object: u32,
    pub delegation: u32,
}

/// What a run aims for as a whole, over all kinds.
#[derive(Clone, Copy, PartialEq, Eq, Debug, Structural)]
pub struct Targets {
    /// Operations per second.
    pub target_qps: u64,
    /// Logical workers.
    pub num_workers: u64,
    /// Outstanding operations per unit of throughput.
    pub in_flight_ratio: u64,
    /// Accounts that take part in transfers.
    pub num_transfer_accounts: u64,
    /// Share of shared-counter operations, in percent, that go to a counter
    /// already in use; values above 100 count as 100.
    pub shared_counter_hotness_factor: u32,
}

/// Throughput, workers and outstanding operations granted to one workload.
#[derive(Clone, Copy, PartialEq, Eq, Debug, Structural)]
pub struct Quota {
    pub target_qps: u64,
    pub num_workers: u64,
    pub max_in_flight_ops: u64,
}

impl WeightVector {
    /// The weight given to `kind`.
    pub open spec fn of(self, kind: WorkloadKind) -> int {
        match kind {
            WorkloadKind::SharedCounter => self.shared_counter as int,
            WorkloadKind::TransferObject => self.transfer_object as int,
            WorkloadKind::Delegation => self.delegation as int,
        }
    }

    /// The weight of all kinds together.
    pub open spec fn total(self) -> int {
        self.shared_counter + self.transfer_object + self.delegation
    }

    /// The weight given to `kind`.
    pub fn weight(&self, kind: WorkloadKind) -> (weight: u32)
        ensures
            weight == self.of(kind),
    {
        match kind {
            WorkloadKind::SharedCounter => self.shared_counter,
            WorkloadKind::TransferObject => self.transfer_object,
            WorkloadKind::Delegation => self.delegation,
        }
    }

    /// The weight of all kinds together.
    pub fn sum(&self) -> (sum: u64)
        ensures
            sum == self.total(),
    {
        self.shared_counter as u64 + self.transfer_object as u64 + self.delegation as u64
    }

    /// The share of `amount` that falls to `kind` by its weight, rounded
    /// down; nothing where no kind has a weight.
    pub fn share_rounded_down(&self, kind: WorkloadKind, amount: u64) -> (share: u64)
        ensures
            share == floor_share(self.of(kind), self.total(), amount as int),
    {
        share_rounded_down(self.weight(kind), self.sum(), amount)
    }

    /// The share of `amount` that falls to `kind` by its weight, rounded up;
    /// nothing where no kind has a weight.
    pub fn share_rounded_up(&self, kind: WorkloadKind, amount: u64) -> (share: u64)
        ensures
            share == ceil_share(self.of(kind), self.total(), amount as int),
    {
        share_rounded_up(self.weight(kind), self.sum(), amount)
    }
}

impl Quota {
    /// A quota on which no workload can run: no throughput, no worker or no
    /// operation in flight.
    pub open spec fn degenerate(self) -> bool {
        self.target_qps == 0 || self.max_in_flight_ops == 0 || self.num_workers == 0
    }

    /// Whether no workload can run on this quota.
    pub fn is_degenerate(&self) -> (degenerate: bool)
        ensures
            degenerate == self.degenerate(),
    {
        self.target_qps == 0 || self.max_in_flight_ops == 0 || self.num_workers == 0
    }
}

/// `amount * weight / total`, rounded down; 0 where no weight is given at all.
pub open spec fn floor_share(weight: int, total: int, amount: int) -> int {
    if total <= 0 {
        0
    } else {
        (weight * amount) / total
    }
}

/// `amount * weight / total`, rounded up; 0 where no weight is given at all.
pub open spec fn ceil_share(weight: int, total: int, amount: int) -> int {
    if total <= 0 {
        0
    } else if (weight * amount) % total == 0 {
        (weight * amount) / total
    } else {
        (weight * amount) / total + 1
    }
}

/// The percentage of shared-counter operations that get a counter of their own.
pub open spec fn novelty_percent(hotness_factor: int) -> int {
    if hotness_factor >= 100 {
        0
    } else if hotness_factor <= 0 {
        100
    } else {
        100 - hotness_factor
    }
}

/// How many distinct counters serve `max_ops` outstanding operations.
pub open spec fn distinct_counters(max_ops: int, hotness_factor: int) -> int {
    (max_ops * novelty_percent(hotness_factor)) / 100
}

/// A floor share is the largest whole number of `total`-th parts of
/// `weight * amount` that does not exceed it.
pub proof fn lemma_floor_share_is_greatest(weight: int, total: int, amount: int)
    requires
        0 <= weight,
        0 < total,
        0 <= amount,
    ensures
        0 <= floor_share(weight, total, amount),
        floor_share(weight, total, amount) * total <= weight * amount,
        weight * amount < (floor_share(weight, total, amount) + 1) * total,
{
    let x = weight * amount;
    assert(0 <= x) by (nonlinear_arith)
        requires
            0 <= weight,
            0 <= amount,
            x == weight * amount,
    ;
    lemma_div_mod_parts(x, total);
    let q = x / total;
    assert((q + 1) * total == q * total + total) by (nonlinear_arith);
}

/// A ceiling share is the smallest whole number of `total`-th parts that
/// covers `weight * amount`.
pub proof fn lemma_ceil_share_is_least(weight: int, total: int, amount: int)
    requires
        0 <= weight,
        0 < total,
        0 <= amount,
    ensures
        0 <= ceil_share(weight, total, amount),
        weight * amount <= ceil_share(weight, total, amount) * total,
        (ceil_share(weight, total, amount) - 1) * total < weight * amount,
{
    let x = weight * amount;
    assert(0 <= x) by (nonlinear_arith)
        requires
            0 <= weight,
            0 <= amount,
            x == weight * amount,
    ;
    lemma_div_mod_parts(x, total);
    let q = x / total;
    assert((q + 1) * total == q * total + total) by (nonlinear_arith);
    assert((q - 1) * total == q * total - total) by (nonlinear_arith);
}

/// The two roundings of one share differ by at most one, and agree exactly
/// where `total` divides `weight * amount`.
pub proof fn lemma_ceil_share_vs_floor_share(weight: int, total: int, amount: int)
    ensures
        floor_share(weight, total, amount) <= ceil_share(weight, total, amount),
        ceil_share(weight, total, amount) <= floor_share(weight, total, amount) + 1,
        total > 0 ==> (ceil_share(weight, total, amount) == floor_share(weight, total, amount)
            <==> (weight * amount) % total == 0),
{
}

/// A kind that has no weight has no share, whatever the other weights are.
pub proof fn lemma_zero_weight_has_no_share(total: int, amount: int)
    ensures
        floor_share(0, total, amount) == 0,
        ceil_share(0, total, amount) == 0,
{
    assert(0 * amount == 0) by (nonlinear_arith);
}

/// A kind that has all the weight has the whole amount.
pub proof fn lemma_full_weight_has_all(total: int, amount: int)
    requires
        0 < total,
    ensures
        floor_share(total, total, amount) == amount,
        ceil_share(total, total, amount) == amount,
{
    assert(total * amount == amount * total + 0) by (nonlinear_arith);
    vstd::arithmetic::div_mod::lemma_fundamental_div_mod_converse(total * amount, total, amount, 0);
}

/// No share of either rounding exceeds the amount that is shared out.
pub proof fn lemma_share_within_amount(weight: int, total: int, amount: int)
    requires
        0 <= weight <= total,
        0 <= amount,
    ensures
        0 <= floor_share(weight, total, amount) <= ceil_share(weight, total, amount) <= amount,
{
    if total > 0 {
        lemma_ceil_share_is_least(weight, total, amount);
        lemma_floor_share_is_greatest(weight, total, amount);
        let c = ceil_share(weight, total, amount);
        assert(weight * amount <= total * amount) by (nonlinear_arith)
            requires
                0 <= weight <= total,
                0 <= amount,
        ;
        assert(c <= amount) by (nonlinear_arith)
            requires
                (c - 1) * total < total * amount,
                0 < total,
        ;
    }
}

/// With a hotness factor of 100 or more every operation reuses a counter;
/// with a hotness factor of 0 every operation has a counter of its own.
pub proof fn lemma_distinct_counters_at_extremes(max_ops: int, hotness_factor: int)
    ensures
        hotness_factor >= 100 ==> distinct_counters(max_ops, hotness_factor) == 0,
        hotness_factor == 0 ==> distinct_counters(max_ops, hotness_factor) == max_ops,
{
    assert(max_ops * 0 == 0) by (nonlinear_arith);
    assert(max_ops * 100 / 100 == max_ops) by (nonlinear_arith);
}

/// There are never more distinct counters than outstanding operations.
pub proof fn lemma_distinct_counters_within_max_ops(max_ops: int, hotness_factor: int)
    requires
        0 <= max_ops,
    ensures
        0 <= distinct_counters(max_ops, hotness_factor) <= max_ops,
{
    let p = novelty_percent(hotness_factor);
    assert(0 <= max_ops * p <= max_ops * 100) by (nonlinear_arith)
        requires
            0 <= max_ops,
            0 <= p <= 100,
    ;
    assert(max_ops * 100 / 100 == max_ops) by (nonlinear_arith);
    vstd::arithmetic::div_mod::lemma_div_is_ordered(max_ops * p, max_ops * 100, 100);
    vstd::arithmetic::div_mod::lemma_div_pos_is_pos(max_ops * p, 100);
}

/// Throughput of `kind` where every kind has a budget of its own.
pub open spec fn disjoint_qps(weights: WeightVector, targets: Targets, kind: WorkloadKind) -> int {
    floor_share(weights.of(kind), weights.total(), targets.target_qps as int)
}

/// Workers of `kind` where every kind has a budget of its own.
pub open spec fn disjoint_workers(
    weights: WeightVector,
    targets: Targets,
    kind: WorkloadKind,
) -> int {
    ceil_share(weights.of(kind), weights.total(), targets.num_workers as int)
}

/// Outstanding operations of `kind` where every kind has a budget of its own.
pub open spec fn disjoint_max_ops(
    weights: WeightVector,
    targets: Targets,
    kind: WorkloadKind,
) -> int {
    disjoint_qps(weights, targets, kind) * targets.in_flight_ratio
}

/// Outstanding operations of the whole mix, where all kinds share one budget.
pub open spec fn combined_max_ops(targets: Targets) -> int {
    targets.target_qps * targets.in_flight_ratio
}

/// The quota of `kind` where every kind has a budget of its own, as far as it
/// can be counted in 64 bits.
pub open spec fn disjoint_quota_of(
    weights: WeightVector,
    targets: Targets,
    kind: WorkloadKind,
) -> Quota {
    Quota {
        target_qps: disjoint_qps(weights, targets, kind) as u64,
        num_workers: disjoint_workers(weights, targets, kind) as u64,
        max_in_flight_ops: disjoint_max_ops(weights, targets, kind) as u64,
    }
}

/// The quota of the whole mix, where all kinds share one budget, as far as it
/// can be counted in 64 bits.
pub open spec fn combined_quota_of(targets: Targets) -> Quota {
    Quota {
        target_qps: targets.target_qps,
        num_workers: targets.num_workers,
        max_in_flight_ops: combined_max_ops(targets) as u64,
    }
}

/// The quota of `kind` where every kind has a budget of its own: its share of
/// the throughput rounded down, its share of the workers rounded up, and
/// `in_flight_ratio` outstanding operations for each unit of its throughput.
pub fn disjoint_quota(weights: &WeightVector, targets: &Targets, kind: WorkloadKind) -> (quota:
    Quota)
    requires
        disjoint_max_ops(*weights, *targets, kind) <= u64::MAX,
    ensures
        quota.target_qps == disjoint_qps(*weights, *targets, kind),
        quota.num_workers == disjoint_workers(*weights, *targets, kind),
        quota.max_in_flight_ops == disjoint_max_ops(*weights, *targets, kind),
        quota == disjoint_quota_of(*weights, *targets, kind),
{
    let target_qps: u64 = weights.share_rounded_down(kind, targets.target_qps);
    let num_workers: u64 = weights.share_rounded_up(kind, targets.num_workers);
    Quota { target_qps, num_workers, max_in_flight_ops: target_qps * targets.in_flight_ratio }
}

/// Whether the outstanding operations of `kind` can be counted in 64 bits, as
/// `disjoint_quota` needs it.
pub fn disjoint_quota_fits(weights: &WeightVector, targets: &Targets, kind: WorkloadKind) -> (fits:
    bool)
    ensures
        fits == (disjoint_max_ops(*weights, *targets, kind) <= u64::MAX),
{
    let target_qps: u64 = weights.share_rounded_down(kind, targets.target_qps);
    target_qps.checked_mul(targets.in_flight_ratio).is_some()
}

/// The quota of the whole mix, where all kinds share one budget.
pub fn combined_quota(targets: &Targets) -> (quota: Quota)
    requires
        combined_max_ops(*targets) <= u64::MAX,
    ensures
        quota.target_qps == targets.target_qps,
        quota.num_workers == targets.num_workers,
        quota.max_in_flight_ops == combined_max_ops(*targets),
        quota == combined_quota_of(*targets),
{
    Quota {
        target_qps: targets.target_qps,
        num_workers: targets.num_workers,
        max_in_flight_ops: targets.target_qps * targets.in_flight_ratio,
    }
}

/// Whether the outstanding operations of the whole mix can be counted in 64
/// bits, as `combined_quota` needs it.
pub fn combined_quota_fits(targets: &Targets) -> (fits: bool)
    ensures
        fits == (combined_max_ops(*targets) <= u64::MAX),
{
    targets.target_qps.checked_mul(targets.in_flight_ratio).is_some()
}

/// How many distinct counters serve `max_ops` outstanding operations: the
/// part of them that the hotness factor leaves, rounded down.
pub fn num_shared_counters(max_ops: u64, hotness_factor: u32) -> (count: u64)
    ensures
        count == distinct_counters(max_ops as int, hotness_factor as int),
{
    let novelty: u64 = if hotness_factor >= 100 {
        0
    } else {
        100 - hotness_factor as u64
    };
    proof {
        lemma_distinct_counters_within_max_ops(max_ops as int, hotness_factor as int);
        assert(max_ops * novelty <= max_ops * 100) by (nonlinear_arith)
            requires
                novelty <= 100,
        ;
    }
    let scaled: u128 = max_ops as u128 * novelty as u128;
    (scaled / 100) as u64
}

/// `amount * weight / total`, rounded down.
fn share_rounded_down(weight: u32, total: u64, amount: u64) -> (share: u64)
    requires
        weight <= total,
    ensures
        share == floor_share(weight as int, total as int, amount as int),
{
    if total == 0 {
        0
    } else {
        proof {
            lemma_share_within_amount(weight as int, total as int, amount as int);
            lemma_product_fits(weight, amount);
        }
        let product: u128 = weight as u128 * amount as u128;
        (product / total as u128) as u64
    }
}

/// `amount * weight / total`, rounded up.
fn share_rounded_up(weight: u32, total: u64, amount: u64) -> (share: u64)
    requires
        weight <= total,
    ensures
        share == ceil_share(weight as int, total as int, amount as int),
{
    if total == 0 {
        0
    } else {
        proof {
            lemma_share_within_amount(weight as int, total as int, amount as int);
            lemma_product_fits(weight, amount);
        }
        let product: u128 = weight as u128 * amount as u128;
        let whole: u128 = product / total as u128;
        if product % total as u128 == 0 {
            whole as u64
        } else {
            (whole + 1) as u64
        }
    }
}

/// The product of a weight and an amount is far below the limit of 128 bits.
proof fn lemma_product_fits(weight: u32, amount: u64)
    ensures
        0 <= weight * amount <= 0xffff_ffff * 0xffff_ffff_ffff_ffff,
{
    assert(0 <= weight * amount <= 0xffff_ffff * 0xffff_ffff_ffff_ffff) by (nonlinear_arith)
        requires
            0 <= weight <= 0xffff_ffff,
            0 <= amount <= 0xffff_ffff_ffff_ffff,
    ;
}

/// `x` is `x / d` whole parts of `d` and a remainder below `d`.
proof fn lemma_div_mod_parts(x: int, d: int)
    requires
        0 <= x,
        0 < d,
    ensures
        x == (x / d) * d + x % d,
        0 <= x % d < d,
        0 <= x / d,
{
    vstd::arithmetic::div_mod::lemma_fundamental_div_mod(x, d);
    vstd::arithmetic::div_mod::lemma_mod_pos_bound(x, d);
    vstd::arithmetic::div_mod::lemma_div_pos_is_pos(x, d);
    assert(d * (x / d) == (x / d) * d) by (nonlinear_arith);
}

} // verus!
