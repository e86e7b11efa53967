//! The gas configuration of a run and the share of it that each endpoint gets.

use crate::chunk::chunk;
use crate::chunk::chunks;
use crate::chunk::total_len;
use crate::chunk::split_workload;
use crate::gas_request::GasRequests;
use crate::quota::WorkloadKind;
use vstd::prelude::*;

verus! {

/// The gas configurations of all workload kinds, each list in the order in
/// which its items were generated.
#[derive(PartialEq, Eq, Debug)]
pub struct WorkloadGasConfig<T> {
    pub shared_counter_workload_init_gas_config: Vec<T>,
    pub shared_counter_workload_payload_gas_config: Vec<T>,
    pub transfer_object_workload_tokens: Vec<T>,
    pub transfer_object_workload_payload_gas_config: Vec<T>,
    pub delegation_gas_configs: Vec<T>,
}

/// What a `WorkloadGasConfig` holds.
pub struct GasConfigView<T> {
    pub shared_counter_workload_init_gas_config: Seq<T>,
    pub shared_counter_workload_payload_gas_config: Seq<T>,
    pub transfer_object_workload_tokens: Seq<T>,
    pub transfer_object_workload_payload_gas_config: Seq<T>,
    pub delegation_gas_configs: Seq<T>,
}

impl<T> View for WorkloadGasConfig<T> {
    type V = GasConfigView<T>;

    open spec fn view(&self) -> GasConfigView<T> {
        GasConfigView {
            shared_counter_workload_init_gas_config: self.shared_counter_workload_init_gas_config@,
            shared_counter_workload_payload_gas_config:
                self.shared_counter_workload_payload_gas_config@,
            transfer_object_workload_tokens: self.transfer_object_workload_tokens@,
            transfer_object_workload_payload_gas_config:
                self.transfer_object_workload_payload_gas_config@,
            delegation_gas_configs: self.delegation_gas_configs@,
        }
    }
}

/// The lists of a gas configuration.
#[derive(Clone, Copy, PartialEq, Eq, Debug, Structural)]
pub enum GasList {
    SharedCounterInit,
    SharedCounterPayload,
    TransferObjectTokens,
    TransferObjectPayload,
    Delegation,
}

impl GasList {
    /// The workload kind whose gas the list holds.
    pub open spec fn kind(self) -> WorkloadKind {
        match self {
            GasList::SharedCounterInit => WorkloadKind::SharedCounter,
            GasList::SharedCounterPayload => WorkloadKind::SharedCounter,
            GasList::TransferObjectTokens => WorkloadKind::TransferObject,
            GasList::TransferObjectPayload => WorkloadKind::TransferObject,
            GasList::Delegation => WorkloadKind::Delegation,
        }
    }
}

impl<T> GasConfigView<T> {
    /// One of the lists.
    pub open spec fn list(self, which: GasList) -> Seq<T> {
        match which {
            GasList::SharedCounterInit => self.shared_counter_workload_init_gas_config,
            GasList::SharedCounterPayload => self.shared_counter_workload_payload_gas_config,
            GasList::TransferObjectTokens => self.transfer_object_workload_tokens,
            GasList::TransferObjectPayload => self.transfer_object_workload_payload_gas_config,
            GasList::Delegation => self.delegation_gas_configs,
        }
    }

    /// One of the lists, endpoint by endpoint, as `num_proxies` endpoints
    /// share it.
    pub open spec fn list_shares(self, which: GasList, num_proxies: int) -> Seq<Seq<T>> {
        Seq::new(num_proxies as nat, |i: int| self.share(num_proxies, i).list(which))
    }

    /// No gas for any kind.
    pub open spec fn empty() -> GasConfigView<T> {
        GasConfigView {
            shared_counter_workload_init_gas_config: Seq::empty(),
            shared_counter_workload_payload_gas_config: Seq::empty(),
            transfer_object_workload_tokens: Seq::empty(),
            transfer_object_workload_payload_gas_config: Seq::empty(),
            delegation_gas_configs: Seq::empty(),
        }
    }

    /// The gas that is kept of what was generated: that of the kinds for
    /// which `requests` asks, and nothing for the others.
    pub open spec fn restricted_to(self, requests: GasRequests) -> GasConfigView<T> {
        GasConfigView {
            shared_counter_workload_init_gas_config: if requests.shared_counter is Some {
                self.shared_counter_workload_init_gas_config
            } else {
                Seq::empty()
            },
            shared_counter_workload_payload_gas_config: if requests.shared_counter is Some {
                self.shared_counter_workload_payload_gas_config
            } else {
                Seq::empty()
            },
            transfer_object_workload_tokens: if requests.transfer_object is Some {
                self.transfer_object_workload_tokens
            } else {
                Seq::empty()
            },
            transfer_object_workload_payload_gas_config: if requests.transfer_object is Some {
                self.transfer_object_workload_payload_gas_config
            } else {
                Seq::empty()
            },
            delegation_gas_configs: if requests.delegation is Some {
                self.delegation_gas_configs
            } else {
                Seq::empty()
            },
        }
    }

    /// The share of endpoint `i` of `num_proxies`: chunk `i` of every list.
    pub open spec fn share(self, num_proxies: int, i: int) -> GasConfigView<T> {
        GasConfigView {
            shared_counter_workload_init_gas_config: chunk(
                self.shared_counter_workload_init_gas_config,
                num_proxies,
                i,
            ),
            shared_counter_workload_payload_gas_config: chunk(
                self.shared_counter_workload_payload_gas_config,
                num_proxies,
                i,
            ),
            transfer_object_workload_tokens: chunk(
                self.transfer_object_workload_tokens,
                num_proxies,
                i,
            ),
            transfer_object_workload_payload_gas_config: chunk(
                self.transfer_object_workload_payload_gas_config,
                num_proxies,
                i,
            ),
            delegation_gas_configs: chunk(self.delegation_gas_configs, num_proxies, i),
        }
    }

    /// The shares of all `num_proxies` endpoints, in the order of the
    /// endpoints.
    pub open spec fn shares(self, num_proxies: int) -> Seq<GasConfigView<T>> {
        Seq::new(num_proxies as nat, |i: int| self.share(num_proxies, i))
    }
}

/// What the gas configurations in `configs` hold, endpoint by endpoint.
pub open spec fn config_views<T>(configs: Seq<WorkloadGasConfig<T>>) -> Seq<GasConfigView<T>> {
    Seq::new(configs.len(), |i: int| configs[i]@)
}

impl<T> WorkloadGasConfig<T> {
    /// A configuration without gas for any kind.
    pub fn new() -> (config: WorkloadGasConfig<T>)
        ensures
            config@ == GasConfigView::<T>::empty(),
    {
        WorkloadGasConfig {
            shared_counter_workload_init_gas_config: Vec::new(),
            shared_counter_workload_payload_gas_config: Vec::new(),
            transfer_object_workload_tokens: Vec::new(),
            transfer_object_workload_payload_gas_config: Vec::new(),
            delegation_gas_configs: Vec::new(),
        }
    }

    /// Keeps the gas of the kinds for which `requests` asks and drops the
    /// rest, so that a kind without a request is left without gas whatever
    /// was generated.
    pub fn restrict(self, requests: &GasRequests) -> (kept: WorkloadGasConfig<T>)
        ensures
            kept@ == self@.restricted_to(*requests),
    {
        let WorkloadGasConfig {
            shared_counter_workload_init_gas_config,
            shared_counter_workload_payload_gas_config,
            transfer_object_workload_tokens,
            transfer_object_workload_payload_gas_config,
            delegation_gas_configs,
        } = self;
        let (counter_init, counter_payload): (Vec<T>, Vec<T>) = if requests.shared_counter.is_some() {
            (shared_counter_workload_init_gas_config, shared_counter_workload_payload_gas_config)
        } else {
            (Vec::new(), Vec::new())
        };
        let (transfer_tokens, transfer_payload): (Vec<T>, Vec<T>) =
            if requests.transfer_object.is_some() {
            (transfer_object_workload_tokens, transfer_object_workload_payload_gas_config)
        } else {
            (Vec::new(), Vec::new())
        };
        let delegation: Vec<T> = if requests.delegation.is_some() {
            delegation_gas_configs
        } else {
            Vec::new()
        };
        WorkloadGasConfig {
            shared_counter_workload_init_gas_config: counter_init,
            shared_counter_workload_payload_gas_config: counter_payload,
            transfer_object_workload_tokens: transfer_tokens,
            transfer_object_workload_payload_gas_config: transfer_payload,
            delegation_gas_configs: delegation,
        }
    }

    /// Deals the gas out to `num_proxies` endpoints. Entry `i` of the result
    /// is for endpoint `i` and holds chunk `i` of every list.
    pub fn split(self, num_proxies: usize) -> (shares: Vec<WorkloadGasConfig<T>>)
        ensures
            shares@.len() == num_proxies,
            config_views(shares@) == self@.shares(num_proxies as int),
    {
        let ghost all = self@;
        let ghost n = num_proxies as int;
        let mut counter_init: Vec<Vec<T>> = split_workload(
            self.shared_counter_workload_init_gas_config,
            num_proxies,
        );
        let mut counter_payload: Vec<Vec<T>> = split_workload(
            self.shared_counter_workload_payload_gas_config,
            num_proxies,
        );
        let mut transfer_tokens: Vec<Vec<T>> = split_workload(
            self.transfer_object_workload_tokens,
            num_proxies,
        );
        let mut transfer_payload: Vec<Vec<T>> = split_workload(
            self.transfer_object_workload_payload_gas_config,
            num_proxies,
        );
        let mut delegation: Vec<Vec<T>> = split_workload(self.delegation_gas_configs, num_proxies);
        let mut shares: Vec<WorkloadGasConfig<T>> = Vec::new();
        let mut i: usize = 0;
        while i < num_proxies
            invariant
                n == num_proxies,
                i <= num_proxies,
                shares@.len() == i,
                counter_init@.len() == num_proxies,
                counter_payload@.len() == num_proxies,
                transfer_tokens@.len() == num_proxies,
                transfer_payload@.len() == num_proxies,
                delegation@.len() == num_proxies,
                forall|k: int| 0 <= k < i ==> (#[trigger] shares@[k])@ == all.share(n, k),
                forall|k: int|
                    i <= k < n ==> (#[trigger] counter_init@[k])@ == chunk(
                        all.shared_counter_workload_init_gas_config,
                        n,
                        k,
                    ),
                forall|k: int|
                    i <= k < n ==> (#[trigger] counter_payload@[k])@ == chunk(
                        all.shared_counter_workload_payload_gas_config,
                        n,
                        k,
                    ),
                forall|k: int|
                    i <= k < n ==> (#[trigger] transfer_tokens@[k])@ == chunk(
                        all.transfer_object_workload_tokens,
                        n,
                        k,
                    ),
                forall|k: int|
                    i <= k < n ==> (#[trigger] transfer_payload@[k])@ == chunk(
                        all.transfer_object_workload_payload_gas_config,
                        n,
                        k,
                    ),
                forall|k: int|
                    i <= k < n ==> (#[trigger] delegation@[k])@ == chunk(
                        all.delegation_gas_configs,
                        n,
                        k,
                    ),
            decreases num_proxies - i,
        {
            let share = WorkloadGasConfig {
                shared_counter_workload_init_gas_config: take_chunk(&mut counter_init, i),
                shared_counter_workload_payload_gas_config: take_chunk(&mut counter_payload, i),
                transfer_object_workload_tokens: take_chunk(&mut transfer_tokens, i),
                transfer_object_workload_payload_gas_config: take_chunk(&mut transfer_payload, i),
                delegation_gas_configs: take_chunk(&mut delegation, i),
            };
            shares.push(share);
            i = i + 1;
        }
        assert(config_views(shares@) =~= all.shares(n));
        shares
    }
}

/// What is kept of a list that was generated is the list itself where gas
/// is asked for its kind, and nothing where it is not.
pub proof fn lemma_restricted_list<T>(generated: GasConfigView<T>, requests: GasRequests, which: GasList)
    ensures
        generated.restricted_to(requests).list(which) == if requests.asks_for(which.kind()) {
            generated.list(which)
        } else {
            Seq::empty()
        },
{
}

/// The shares that the endpoints get of a list are its chunks: put one behind
/// the other in the order of the endpoints they are the list again, their
/// lengths add up to its length, and no endpoint gets more than one item more
/// than another.
pub proof fn lemma_shares_are_chunks<T>(all: GasConfigView<T>, which: GasList, num_proxies: int)
    requires
        0 < num_proxies,
    ensures
        all.list_shares(which, num_proxies) == chunks(all.list(which), num_proxies),
        all.list_shares(which, num_proxies).flatten() == all.list(which),
        total_len(all.list_shares(which, num_proxies)) == all.list(which).len(),
        forall|i: int, j: int|
            0 <= i < num_proxies && 0 <= j < num_proxies ==> (#[trigger] all.list_shares(
                which,
                num_proxies,
            )[i]).len() <= (#[trigger] all.list_shares(which, num_proxies)[j]).len() + 1,
{
    let shares = all.list_shares(which, num_proxies);
    let cut = chunks(all.list(which), num_proxies);
    assert(shares =~= cut);
    crate::chunk::lemma_chunks_concat(all.list(which), num_proxies);
    assert forall|i: int, j: int| 0 <= i < num_proxies && 0 <= j < num_proxies implies (
    #[trigger] shares[i]).len() <= (#[trigger] shares[j]).len() + 1 by {
        crate::chunk::lemma_chunks_balanced(all.list(which), num_proxies, i, j);
    }
}

/// Of a list for whose kind no gas is asked, no endpoint gets anything,
/// whatever was generated.
pub proof fn lemma_unrequested_list_is_empty<T>(
    generated: GasConfigView<T>,
    requests: GasRequests,
    which: GasList,
    num_proxies: int,
    i: int,
)
    requires
        !requests.asks_for(which.kind()),
        0 <= i < num_proxies,
    ensures
        generated.restricted_to(requests).share(num_proxies, i).list(which) == Seq::<T>::empty(),
{
    crate::chunk::lemma_chunks_of_empty::<T>(num_proxies, i);
    assert(generated.restricted_to(requests).list(which) == Seq::<T>::empty());
}

/// Takes chunk `i` out of `split` and leaves an empty list in its place.
fn take_chunk<T>(split: &mut Vec<Vec<T>>, i: usize) -> (taken: Vec<T>)
    requires
        i < old(split)@.len(),
    ensures
        taken == old(split)@[i as int],
        final(split)@.len() == old(split)@.len(),
        forall|k: int|
            0 <= k < old(split)@.len() && k != i ==> final(split)@[k] == old(split)@[k],
{
    let mut taken: Vec<T> = Vec::new();
    split.set_and_swap(i, &mut taken);
    taken
}

} // verus!
