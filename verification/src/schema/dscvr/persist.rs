//! The parts of a configuration that are kept in each of its two files

use crate::schema::dscvr::{
    clone_groups, Canister, CanisterNetwork, CanisterNetworkView, CanisterView, DSCVRConfig,
    DSCVRConfigView,
};
use crate::string_map::{spec_view_has_key, spec_view_index_of, StringMap};
use crate::text::str_equal;
use vstd::prelude::*;
use vstd::string::StringExecFns;

verus! {

/// Of the networks of a canister, the local one alone.
pub open spec fn spec_local_networks(networks: Seq<(Seq<char>, CanisterNetworkView)>) -> Seq<
    (Seq<char>, CanisterNetworkView),
> {
    if spec_view_has_key(networks, "local"@) {
        seq![("local"@, networks[spec_view_index_of(networks, "local"@)].1)]
    } else {
        Seq::empty()
    }
}

/// The canister with other networks.
pub open spec fn spec_with_networks(
    canister: CanisterView,
    networks: Seq<(Seq<char>, CanisterNetworkView)>,
) -> CanisterView {
    CanisterView {
        networks,
        candid: canister.candid,
        wasm: canister.wasm,
        build: canister.build,
        supports_init_params: canister.supports_init_params,
        supports_stable_storage_backup_restore: canister.supports_stable_storage_backup_restore,
    }
}

/// The canister as the local file keeps it: on the local network alone.
pub open spec fn spec_local_canister(canister: CanisterView) -> CanisterView {
    spec_with_networks(canister, spec_local_networks(canister.networks))
}

/// The configuration as the local file keeps it: every canister on the local network alone.
pub open spec fn spec_local_config(config: DSCVRConfigView) -> DSCVRConfigView {
    DSCVRConfigView {
        canisters: config.canisters.map_values(
            |entry: (Seq<char>, CanisterView)| (entry.0, spec_local_canister(entry.1)),
        ),
        controller_groups: config.controller_groups,
    }
}

/// The network without its instances.
pub open spec fn spec_without_instances(network: CanisterNetworkView) -> CanisterNetworkView {
    CanisterNetworkView {
        provider: network.provider,
        controllers: network.controllers,
        provisioned_instances: None,
        available_instances: None,
        wallet: network.wallet,
    }
}

/// The networks of a canister with the local one, if there is one, without its instances.
pub open spec fn spec_without_local_instances(networks: Seq<(Seq<char>, CanisterNetworkView)>) -> Seq<
    (Seq<char>, CanisterNetworkView),
> {
    if spec_view_has_key(networks, "local"@) {
        let at = spec_view_index_of(networks, "local"@);
        networks.update(at, ("local"@, spec_without_instances(networks[at].1)))
    } else {
        networks
    }
}

/// The canister as the shared file keeps it: without the instances of the local network.
pub open spec fn spec_shared_canister(canister: CanisterView) -> CanisterView {
    spec_with_networks(canister, spec_without_local_instances(canister.networks))
}

/// Whether the canister runs on the local network and on no other.
pub open spec fn spec_runs_locally_only(canister: CanisterView) -> bool {
    canister.networks.len() == 1 && canister.networks[0].0 == "local"@
}

/// The canisters that run on another network than the local one, in their order.
pub open spec fn spec_shared_canisters(canisters: Seq<(Seq<char>, CanisterView)>) -> Seq<
    (Seq<char>, CanisterView),
>
    decreases canisters.len(),
{
    if canisters.len() == 0 {
        Seq::empty()
    } else {
        let before = spec_shared_canisters(canisters.drop_last());
        if spec_runs_locally_only(canisters.last().1) {
            before
        } else {
            before.push(canisters.last())
        }
    }
}

/// The configuration as the shared file keeps it: without the canisters that run on the
/// local network only, and without the instances of the local network of the others.
pub open spec fn spec_default_config(config: DSCVRConfigView) -> DSCVRConfigView {
    DSCVRConfigView {
        canisters: spec_shared_canisters(
            config.canisters.map_values(
                |entry: (Seq<char>, CanisterView)| (entry.0, spec_shared_canister(entry.1)),
            ),
        ),
        controller_groups: config.controller_groups,
    }
}

/// A copy of the canister on the local network alone.
pub fn local_canister(canister: &Canister) -> (r: Canister)
    ensures
        r@ == spec_local_canister(canister@),
{
    let mut networks: StringMap<CanisterNetwork> = StringMap::new();
    assert(networks@ =~= Seq::empty());
    match canister.networks.get_value("local") {
        Some(network) => {
            let _ = networks.insert_value(String::from_str("local"), network.clone());
            assert(networks@ =~= spec_local_networks(canister.networks@));
        },
        None => {},
    }
    Canister {
        networks,
        candid: canister.candid.clone(),
        wasm: canister.wasm.clone(),
        build: canister.build.clone(),
        supports_init_params: canister.supports_init_params,
        supports_stable_storage_backup_restore: canister.supports_stable_storage_backup_restore,
    }
}

/// A copy of the canister without the instances of its local network.
pub fn shared_canister(canister: &Canister) -> (r: Canister)
    ensures
        r@ == spec_shared_canister(canister@),
{
    let mut copy = canister.clone();
    let found = copy.networks.index_of("local");
    proof {
        crate::string_map::lemma_view_index_of(copy.networks.entries(), "local"@);
    }
    match found {
        Some(at) => {
            let mut network = copy.networks.value_at(at).clone();
            network.provisioned_instances = None;
            network.available_instances = None;
            let _ = copy.networks.set_value_at(at, network);
        },
        None => {},
    }
    copy
}

impl DSCVRConfig {
    /// The configuration as the shared file keeps it.
    pub fn generate_default_config(&self) -> (r: Self)
        ensures
            r@ == spec_default_config(self@),
    {
        let mut canisters = self.canisters.clone_with(shared_canister);
        let ghost shared = self@.canisters.map_values(
            |entry: (Seq<char>, CanisterView)| (entry.0, spec_shared_canister(entry.1)),
        );
        assert(canisters@ =~= shared);
        let mut i: usize = 0;
        let ghost mut seen: int = 0;
        while i < canisters.len()
            invariant
                0 <= seen <= shared.len(),
                i == spec_shared_canisters(shared.take(seen)).len(),
                canisters@ == spec_shared_canisters(shared.take(seen)) + shared.skip(seen),
            decreases shared.len() - seen,
        {
            proof {
                assert(canisters@[i as int] == shared[seen]);
                assert(shared.take(seen + 1).drop_last() =~= shared.take(seen));
                assert(shared.take(seen + 1).last() == shared[seen]);
            }
            let canister = canisters.value_at(i);
            let only_local = canister.networks.len() == 1 && str_equal(
                canister.networks.key_at(0).as_str(),
                "local",
            );
            assert(only_local == spec_runs_locally_only(shared[seen].1));
            if only_local {
                let _ = canisters.remove_value_at(i);
                assert(canisters@ =~= spec_shared_canisters(shared.take(seen + 1)) + shared.skip(
                    seen + 1,
                ));
            } else {
                assert(canisters@ =~= spec_shared_canisters(shared.take(seen + 1)) + shared.skip(
                    seen + 1,
                ));
                i = i + 1;
            }
            proof {
                seen = seen + 1;
            }
        }
        proof {
            assert(seen == shared.len()) by {
                if seen < shared.len() {
                    assert(canisters@.len() == i + shared.len() - seen);
                }
            }
            assert(shared.take(seen) =~= shared);
            assert(canisters@ =~= spec_shared_canisters(shared));
        }
        DSCVRConfig { canisters, controller_groups: clone_groups(&self.controller_groups) }
    }

    /// The configuration as the local file keeps it.
    pub fn generate_local_config(&self) -> (r: Self)
        ensures
            r@ == spec_local_config(self@),
    {
        let canisters = self.canisters.clone_with(local_canister);
        assert(canisters@ =~= self@.canisters.map_values(
            |entry: (Seq<char>, CanisterView)| (entry.0, spec_local_canister(entry.1)),
        ));
        DSCVRConfig { canisters, controller_groups: clone_groups(&self.controller_groups) }
    }
}

} // verus!
