//! Configuration from dfx.json

use crate::canister_init_arguments::ControllerType;
use crate::ic_identity_util::IdentityFromFile;
use crate::schema::dscvr::allocate::spec_or_empty;
use crate::schema::dscvr::{
    spec_groups, spec_instances, spec_text, Canister, CanisterInstance, CanisterInstanceView,
    CanisterNetwork, CanisterNetworkView, CanisterView, ControllerGroup, DSCVRConfig,
    DSCVRConfigView,
};
use crate::string_map::{
    lemma_view_index_of, spec_view_get, spec_view_has_key, spec_view_index_of, spec_view_insert,
    StringMap,
};
use crate::text::str_equal;
use vstd::prelude::*;
use vstd::string::StringExecFns;

verus! {

/// Whether no two entries are for the same controller type.
pub open spec fn spec_distinct_types(entries: Seq<(ControllerType, IdentityFromFile)>) -> bool {
    forall|i: int, j: int|
        0 <= i < entries.len() && 0 <= j < entries.len() && i != j ==> (#[trigger] entries[i]).0
            != (#[trigger] entries[j]).0
}

/// Whether `index` is the place of the entry for `controller_type`.
pub open spec fn spec_is_type_at(
    entries: Seq<(ControllerType, IdentityFromFile)>,
    controller_type: ControllerType,
    index: int,
) -> bool {
    0 <= index < entries.len() && entries[index].0 == controller_type
}

/// Controller type -> identity map. No controller type occurs twice, and the entries stay in
/// the order in which their types were first inserted.
#[derive(Debug)]
pub struct ControllerIdentityMap {
    entries: Vec<(ControllerType, IdentityFromFile)>,
}

impl ControllerIdentityMap {
    #[verifier::type_invariant]
    closed spec fn distinct(self) -> bool {
        spec_distinct_types(self.entries@)
    }

    /// The entries in their order.
    pub closed spec fn entries(&self) -> Seq<(ControllerType, IdentityFromFile)> {
        self.entries@
    }

    /// Whether there is an identity for `controller_type`.
    pub open spec fn spec_contains_key(&self, controller_type: ControllerType) -> bool {
        exists|index: int| spec_is_type_at(self.entries(), controller_type, index)
    }

    /// The identity for `controller_type`.
    pub open spec fn spec_get(&self, controller_type: ControllerType) -> Option<IdentityFromFile> {
        if self.spec_contains_key(controller_type) {
            Some(
                self.entries()[choose|index: int|
                    spec_is_type_at(self.entries(), controller_type, index)].1,
            )
        } else {
            None
        }
    }

    /// An empty map.
    pub fn new() -> (r: Self)
        ensures
            r.entries() == Seq::<(ControllerType, IdentityFromFile)>::empty(),
    {
        ControllerIdentityMap { entries: Vec::new() }
    }

    /// The number of entries. No two of them are for the same controller type.
    pub fn len(&self) -> (r: usize)
        ensures
            r == self.entries().len(),
            spec_distinct_types(self.entries()),
    {
        proof {
            use_type_invariant(self);
        }
        self.entries.len()
    }

    /// The place of the entry for `controller_type`.
    pub fn index_of(&self, controller_type: &ControllerType) -> (r: Option<usize>)
        ensures
            r is Some <==> self.spec_contains_key(*controller_type),
            r is Some ==> spec_is_type_at(self.entries(), *controller_type, r->Some_0 as int)
                && self.spec_get(*controller_type) == Some(self.entries()[r->Some_0 as int].1),
    {
        proof {
            use_type_invariant(self);
        }
        let mut i: usize = 0;
        while i < self.entries.len()
            invariant
                i <= self.entries@.len(),
                spec_distinct_types(self.entries@),
                forall|j: int| 0 <= j < i ==> !spec_is_type_at(self.entries@, *controller_type, j),
            decreases self.entries@.len() - i,
        {
            if self.entries[i].0 == *controller_type {
                proof {
                    assert(spec_is_type_at(self.entries(), *controller_type, i as int));
                    assert(self.spec_contains_key(*controller_type));
                    let chosen = choose|index: int|
                        spec_is_type_at(self.entries@, *controller_type, index);
                    assert(spec_is_type_at(self.entries@, *controller_type, chosen));
                    if chosen != i {
                        assert(self.entries@[chosen].0 != self.entries@[i as int].0);
                    }
                }
                return Some(i);
            }
            i = i + 1;
        }
        None
    }

    /// The identity for `controller_type`.
    pub fn get(&self, controller_type: &ControllerType) -> (r: Option<&IdentityFromFile>)
        ensures
            r is Some <==> self.spec_contains_key(*controller_type),
            r is Some ==> self.spec_get(*controller_type) == Some(*r->Some_0),
    {
        match self.index_of(controller_type) {
            Some(i) => Some(&self.entries[i].1),
            None => None,
        }
    }

    /// Put `identity` under `controller_type`: in the place of the identity that the type
    /// had, or behind all other entries. The identity that the type had is handed back.
    pub fn insert(&mut self, controller_type: ControllerType, identity: IdentityFromFile) -> (r:
        Option<IdentityFromFile>)
        ensures
            r == old(self).spec_get(controller_type),
            final(self).spec_get(controller_type) == Some(identity),
            forall|other: ControllerType|
                other != controller_type ==> final(self).spec_contains_key(other) == old(self).spec_contains_key(other),
            !old(self).spec_contains_key(controller_type) ==> final(self).entries() == old(self).entries().push((controller_type, identity)),
            old(self).spec_contains_key(controller_type) ==> final(self).entries().len() == old(self).entries().len(),
    {
        proof {
            use_type_invariant(&*self);
        }
        let found = self.index_of(&controller_type);
        let mut entries: Vec<(ControllerType, IdentityFromFile)> = Vec::new();
        core::mem::swap(&mut entries, &mut self.entries);
        let ghost before = entries@;
        assert(before == old(self).entries());
        let previous = match found {
            Some(i) => {
                let (_, previous) = entries.remove(i);
                entries.insert(i, (controller_type, identity));
                assert(entries@ =~= before.update(i as int, (controller_type, identity)));
                Some(previous)
            },
            None => {
                assert forall|j: int| 0 <= j < before.len() implies (#[trigger] before[j]).0
                    != controller_type by {
                    assert(!spec_is_type_at(before, controller_type, j));
                }
                entries.push((controller_type, identity));
                None
            },
        };
        let ghost after = entries@;
        self.entries = entries;
        assert(self.entries() == after);
        proof {
            let at = match found {
                Some(i) => i as int,
                None => before.len() as int,
            };
            assert(spec_is_type_at(after, controller_type, at));
            let chosen = choose|index: int| spec_is_type_at(after, controller_type, index);
            assert(spec_is_type_at(after, controller_type, chosen));
            if chosen != at {
                assert(after[chosen].0 != after[at].0);
            }
            assert(after[at].1 == identity);
            assert forall|other: ControllerType| other != controller_type implies final(self).spec_contains_key(other) == old(self).spec_contains_key(other) by {
                if old(self).spec_contains_key(other) {
                    let k = choose|index: int| spec_is_type_at(before, other, index);
                    assert(spec_is_type_at(after, other, k));
                }
                if final(self).spec_contains_key(other) {
                    let k = choose|index: int| spec_is_type_at(after, other, index);
                    assert(spec_is_type_at(before, other, k));
                }
            }
        }
        previous
    }
}

impl Clone for ControllerIdentityMap {
    fn clone(&self) -> (r: Self)
        ensures
            r.entries() == self.entries(),
    {
        proof {
            use_type_invariant(self);
        }
        let mut entries: Vec<(ControllerType, IdentityFromFile)> = Vec::new();
        let mut i: usize = 0;
        while i < self.entries.len()
            invariant
                i <= self.entries@.len(),
                entries@ == self.entries@.take(i as int),
            decreases self.entries@.len() - i,
        {
            entries.push((self.entries[i].0, self.entries[i].1.clone()));
            i = i + 1;
            assert(entries@ =~= self.entries@.take(i as int));
        }
        assert(self.entries@.take(i as int) =~= self.entries@);
        ControllerIdentityMap { entries }
    }
}

impl ControllerIdentityMap {
    /// Join the parent path to the path of every identity. The controller types stay as
    /// they are, in their order.
    pub fn join_parent(&mut self, parent: &std::path::Path)
        ensures
            spec_same_types(old(self).entries(), final(self).entries()),
    {
        proof {
            use_type_invariant(&*self);
        }
        let mut entries: Vec<(ControllerType, IdentityFromFile)> = Vec::new();
        core::mem::swap(&mut entries, &mut self.entries);
        let ghost before = entries@;
        let mut joined: Vec<(ControllerType, IdentityFromFile)> = Vec::new();
        let mut i: usize = 0;
        while i < entries.len()
            invariant
                i <= entries@.len(),
                entries@ == before,
                joined@.len() == i,
                forall|k: int| 0 <= k < i ==> (#[trigger] joined@[k]).0 == before[k].0,
            decreases entries@.len() - i,
        {
            let mut identity = entries[i].1.clone();
            identity.join_parent(parent);
            joined.push((entries[i].0, identity));
            i = i + 1;
        }
        assert forall|a: int, b: int|
            0 <= a < joined@.len() && 0 <= b < joined@.len() && a != b implies (
        #[trigger] joined@[a]).0 != (#[trigger] joined@[b]).0 by {
            assert(before[a].0 != before[b].0);
        }
        self.entries = joined;
    }
}

/// Whether two lists of identities are for the same controller types in the same order.
pub open spec fn spec_same_types(
    before: Seq<(ControllerType, IdentityFromFile)>,
    after: Seq<(ControllerType, IdentityFromFile)>,
) -> bool {
    &&& before.len() == after.len()
    &&& forall|k: int| 0 <= k < before.len() ==> (#[trigger] after[k]).0 == before[k].0
}

impl View for ControllerIdentityMap {
    type V = Seq<(ControllerType, IdentityFromFile)>;

    open spec fn view(&self) -> Seq<(ControllerType, IdentityFromFile)> {
        self.entries()
    }
}

/// A copy of a controller type -> identity map.
pub fn clone_identity_map(map: &ControllerIdentityMap) -> (r: ControllerIdentityMap)
    ensures
        r@ == map@,
{
    map.clone()
}

/// Why no dfx configuration could be made of a configuration.
#[derive(Debug)]
pub enum DfxGenerationError {
    /// A canister names a controller group that the configuration does not hold: the group,
    /// the canister.
    ControllerGroupMismatch(String, String),
    /// A canister names a controller group, and the configuration holds no groups: the
    /// canister.
    ControllerGroupMissing(String),
}

/// Network configuration
#[derive(Debug)]
pub struct DfxNetwork {
    /// The name of the network
    pub name: String,
    /// Providers for this network
    pub providers: Option<Vec<String>>,
    /// Bound address
    pub bind: Option<String>,
}

/// What a network configuration holds.
pub struct DfxNetworkView {
    pub name: Seq<char>,
    pub providers: Option<Seq<Seq<char>>>,
    pub bind: Option<Seq<char>>,
}

/// What the strings hold, in order.
pub open spec fn spec_texts(texts: Seq<String>) -> Seq<Seq<char>> {
    texts.map_values(|text: String| text@)
}

impl View for DfxNetwork {
    type V = DfxNetworkView;

    open spec fn view(&self) -> DfxNetworkView {
        DfxNetworkView {
            name: self.name@,
            providers: match self.providers {
                Some(providers) => Some(spec_texts(providers@)),
                None => None,
            },
            bind: match self.bind {
                Some(bind) => Some(bind@),
                None => None,
            },
        }
    }
}

/// Canister configuration
#[derive(Debug)]
pub struct DfxCanister {
    /// The name of the canister
    pub name: String,
    /// Path to the wasm
    pub wasm: String,
    /// Path to the candid definition
    pub candid: String,
    /// Set to true if the canister can be initialized with parameters (DSCVR)
    pub supports_init_params: bool,
    /// Set to true if the canister supports backup
    /// and restore via stable storage (DSCVR)
    pub supports_stable_storage_backup_restore: bool,
    /// Canister network to canister id map defined in canister_ids.json
    pub network_id_map: StringMap<String>,
    /// network name to wallet id map used for deploying the canister.
    pub wallet: Option<StringMap<String>>,
    /// The controllers associated with this canister (DSCVR)
    pub controllers: Option<StringMap<ControllerIdentityMap>>,
    /// Build parameters (DSCVR)
    pub build: String,
}

/// What a canister configuration holds.
pub struct DfxCanisterView {
    pub name: Seq<char>,
    pub wasm: Seq<char>,
    pub candid: Seq<char>,
    pub supports_init_params: bool,
    pub supports_stable_storage_backup_restore: bool,
    pub network_id_map: Seq<(Seq<char>, Seq<char>)>,
    pub wallet: Option<Seq<(Seq<char>, Seq<char>)>>,
    pub controllers: Option<Seq<(Seq<char>, Seq<(ControllerType, IdentityFromFile)>)>>,
    pub build: Seq<char>,
}

impl View for DfxCanister {
    type V = DfxCanisterView;

    open spec fn view(&self) -> DfxCanisterView {
        DfxCanisterView {
            name: self.name@,
            wasm: self.wasm@,
            candid: self.candid@,
            supports_init_params: self.supports_init_params,
            supports_stable_storage_backup_restore: self.supports_stable_storage_backup_restore,
            network_id_map: self.network_id_map@,
            wallet: match self.wallet {
                Some(wallet) => Some(wallet@),
                None => None,
            },
            controllers: match self.controllers {
                Some(controllers) => Some(controllers@),
                None => None,
            },
            build: self.build@,
        }
    }
}

impl DfxCanister {
    /// Return all the controllers for a network
    pub fn get_all_controllers_for_network(&self, network_name: &str) -> (r: Option<
        &ControllerIdentityMap,
    >)
        ensures
            r is Some <==> self.controllers is Some && spec_view_has_key(
                self.controllers->Some_0@,
                network_name@,
            ),
            r is Some ==> spec_view_get(self.controllers->Some_0@, network_name@) == Some(
                r->Some_0@,
            ),
    {
        match &self.controllers {
            Some(controllers) => controllers.get_value(network_name),
            None => None,
        }
    }

    /// Return the controller for this canister for a specific network.
    pub fn get_controller(&self, network_name: &str, controller_type: &ControllerType) -> (r:
        Option<&IdentityFromFile>)
        ensures
            r is Some <==> self.controllers is Some && self.controllers->Some_0.spec_get(
                network_name@,
            ) is Some && self.controllers->Some_0.spec_get(
                network_name@,
            )->Some_0.spec_contains_key(*controller_type),
            r is Some ==> self.controllers->Some_0.spec_get(network_name@)->Some_0.spec_get(
                *controller_type,
            ) == Some(*r->Some_0),
    {
        match &self.controllers {
            Some(controllers) => match controllers.get(network_name) {
                Some(identities) => identities.get(controller_type),
                None => None,
            },
            None => None,
        }
    }
}

/// Configuration for the canisters. We extend the dfx.json schema and superimpose
/// our own fields that are specific to DSCVR use-cases.
#[derive(Debug)]
pub struct DfxConfig {
    /// canister_name -> canister config
    pub canisters: StringMap<DfxCanister>,
    /// network_name -> network_config
    pub networks: StringMap<DfxNetwork>,
    /// The order in which the canisters are setup. This is needed
    /// to have a reproducible staging environment such that each
    /// canister is always assigned the same canister id.
    pub canister_setup_order: Vec<String>,
    /// DFX Version
    pub dfx: String,
}

/// What a dfx configuration holds.
pub struct DfxConfigView {
    pub canisters: Seq<(Seq<char>, DfxCanisterView)>,
    pub networks: Seq<(Seq<char>, DfxNetworkView)>,
    pub canister_setup_order: Seq<Seq<char>>,
    pub dfx: Seq<char>,
}

impl View for DfxConfig {
    type V = DfxConfigView;

    open spec fn view(&self) -> DfxConfigView {
        DfxConfigView {
            canisters: self.canisters@,
            networks: self.networks@,
            canister_setup_order: spec_texts(self.canister_setup_order@),
            dfx: self.dfx@,
        }
    }
}

/// The ids of the canisters: canister name -> network name -> id.
#[derive(Debug)]
pub struct CanisterIds {
    /// canister name -> network name -> id
    pub ids: StringMap<StringMap<String>>,
}

impl View for CanisterIds {
    type V = Seq<(Seq<char>, Seq<(Seq<char>, Seq<char>)>)>;

    open spec fn view(&self) -> Seq<(Seq<char>, Seq<(Seq<char>, Seq<char>)>)> {
        self.ids@
    }
}

impl Default for CanisterIds {
    fn default() -> (r: Self)
        ensures
            r@ == Seq::<(Seq<char>, Seq<(Seq<char>, Seq<char>)>)>::empty(),
    {
        let ids: StringMap<StringMap<String>> = StringMap::new();
        assert(ids@ =~= Seq::empty());
        CanisterIds { ids }
    }
}

/// The identities of a controller group.
pub type Identities = Seq<(ControllerType, IdentityFromFile)>;

/// Whether every controller group that a network of the canister names is there.
pub open spec fn spec_groups_resolve(
    networks: Seq<(Seq<char>, CanisterNetworkView)>,
    groups: Option<Seq<(Seq<char>, Identities)>>,
) -> bool {
    forall|k: int|
        0 <= k < networks.len() ==> match (#[trigger] networks[k]).1.controllers {
            Some(group) => groups is Some && spec_view_has_key(groups->Some_0, group),
            None => true,
        }
}

/// Whether every controller group that a canister of the configuration names is there.
pub open spec fn spec_config_resolves(config: DSCVRConfigView) -> bool {
    forall|c: int|
        0 <= c < config.canisters.len() ==> spec_groups_resolve(
            (#[trigger] config.canisters[c]).1.networks,
            config.controller_groups,
        )
}

/// The controllers of a canister: for each network that names a controller group, the
/// identities of that group.
pub open spec fn spec_controllers(
    networks: Seq<(Seq<char>, CanisterNetworkView)>,
    groups: Option<Seq<(Seq<char>, Identities)>>,
) -> Seq<(Seq<char>, Identities)>
    decreases networks.len(),
{
    if networks.len() == 0 {
        Seq::empty()
    } else {
        let before = spec_controllers(networks.drop_last(), groups);
        match (networks.last().1.controllers, groups) {
            (Some(group), Some(groups)) => match spec_view_get(groups, group) {
                Some(identities) => spec_view_insert(before, networks.last().0, identities),
                None => before,
            },
            _ => before,
        }
    }
}

/// All instances of a canister on a network: the provisioned ones, then the available ones.
pub open spec fn spec_view_all_instances(network: CanisterNetworkView) -> Seq<CanisterInstanceView> {
    spec_or_empty(network.provisioned_instances) + spec_or_empty(network.available_instances)
}

/// The flag, or false where it is not given.
pub open spec fn spec_flag(flag: Option<bool>) -> bool {
    match flag {
        Some(flag) => flag,
        None => false,
    }
}

/// The dfx canister that is made of an instance of a canister on a network.
pub open spec fn spec_dfx_canister(
    instance_name: Seq<char>,
    canister: CanisterView,
    network_name: Seq<char>,
    wallet: Option<Seq<char>>,
    controllers: Seq<(Seq<char>, Identities)>,
) -> DfxCanisterView {
    DfxCanisterView {
        name: instance_name,
        wasm: canister.wasm,
        candid: canister.candid,
        supports_init_params: spec_flag(canister.supports_init_params),
        supports_stable_storage_backup_restore: spec_flag(
            canister.supports_stable_storage_backup_restore,
        ),
        network_id_map: Seq::empty(),
        wallet: Some(
            match wallet {
                Some(wallet) => seq![(network_name, wallet)],
                None => Seq::empty(),
            },
        ),
        controllers: Some(controllers),
        build: canister.build,
    }
}

/// The dfx canisters after those of the given instances have been put in, each under the
/// name of its instance.
pub open spec fn spec_add_instances(
    canisters: Seq<(Seq<char>, DfxCanisterView)>,
    instances: Seq<CanisterInstanceView>,
    canister: CanisterView,
    network_name: Seq<char>,
    wallet: Option<Seq<char>>,
    controllers: Seq<(Seq<char>, Identities)>,
) -> Seq<(Seq<char>, DfxCanisterView)>
    decreases instances.len(),
{
    if instances.len() == 0 {
        canisters
    } else {
        spec_view_insert(
            spec_add_instances(
                canisters,
                instances.drop_last(),
                canister,
                network_name,
                wallet,
                controllers,
            ),
            instances.last().name,
            spec_dfx_canister(instances.last().name, canister, network_name, wallet, controllers),
        )
    }
}

/// The dfx network that is made of a network of a canister.
pub open spec fn spec_dfx_network(name: Seq<char>, provider: Seq<char>) -> DfxNetworkView {
    DfxNetworkView { name, providers: Some(seq![provider]), bind: Some(provider) }
}

/// The dfx canisters and networks after the networks of one canister have been put in: the
/// instances on the network that the dfx configuration is made for, and every network but
/// the local one.
pub open spec fn spec_add_networks(
    canisters: Seq<(Seq<char>, DfxCanisterView)>,
    dfx_networks: Seq<(Seq<char>, DfxNetworkView)>,
    networks: Seq<(Seq<char>, CanisterNetworkView)>,
    canister: CanisterView,
    network: Seq<char>,
    controllers: Seq<(Seq<char>, Identities)>,
) -> (Seq<(Seq<char>, DfxCanisterView)>, Seq<(Seq<char>, DfxNetworkView)>)
    decreases networks.len(),
{
    if networks.len() == 0 {
        (canisters, dfx_networks)
    } else {
        let before = spec_add_networks(
            canisters,
            dfx_networks,
            networks.drop_last(),
            canister,
            network,
            controllers,
        );
        let name = networks.last().0;
        let on = networks.last().1;
        (
            if name == network {
                spec_add_instances(
                    before.0,
                    spec_view_all_instances(on),
                    canister,
                    name,
                    on.wallet,
                    controllers,
                )
            } else {
                before.0
            },
            if name != "local"@ {
                spec_view_insert(before.1, name, spec_dfx_network(name, on.provider))
            } else {
                before.1
            },
        )
    }
}

/// The dfx canisters and networks that are made of the canisters of a configuration.
pub open spec fn spec_add_canisters(
    canisters: Seq<(Seq<char>, CanisterView)>,
    groups: Option<Seq<(Seq<char>, Identities)>>,
    network: Seq<char>,
) -> (Seq<(Seq<char>, DfxCanisterView)>, Seq<(Seq<char>, DfxNetworkView)>)
    decreases canisters.len(),
{
    if canisters.len() == 0 {
        (Seq::empty(), Seq::empty())
    } else {
        let before = spec_add_canisters(canisters.drop_last(), groups, network);
        let canister = canisters.last().1;
        spec_add_networks(
            before.0,
            before.1,
            canister.networks,
            canister,
            network,
            spec_controllers(canister.networks, groups),
        )
    }
}

/// The dfx configuration that is made of a configuration for a network.
pub open spec fn spec_dfx_config(config: DSCVRConfigView, network: Seq<char>) -> DfxConfigView {
    let made = spec_add_canisters(config.canisters, config.controller_groups, network);
    DfxConfigView {
        canisters: made.0,
        networks: made.1,
        canister_setup_order: Seq::empty(),
        dfx: "0.14.1"@,
    }
}

/// Whether the error names a controller group that a network of the canister names and
/// that is not there.
pub open spec fn spec_unresolved(
    error: DfxGenerationError,
    canister_name: Seq<char>,
    networks: Seq<(Seq<char>, CanisterNetworkView)>,
    groups: Option<Seq<(Seq<char>, Identities)>>,
) -> bool {
    exists|k: int|
        0 <= k < networks.len() && (#[trigger] networks[k]).1.controllers is Some && match error {
            DfxGenerationError::ControllerGroupMissing(canister) => groups is None && canister@
                == canister_name,
            DfxGenerationError::ControllerGroupMismatch(group, canister) => groups is Some
                && !spec_view_has_key(groups->Some_0, group@) && group@
                == networks[k].1.controllers->Some_0 && canister@ == canister_name,
        }
}

/// A copy of the controllers of a canister.
pub fn clone_controllers(controllers: &StringMap<ControllerIdentityMap>) -> (r: StringMap<
    ControllerIdentityMap,
>)
    ensures
        r@ == controllers@,
{
    let copy = controllers.clone_with(clone_identity_map);
    assert(copy@ =~= controllers@);
    copy
}

/// The controllers of a canister: for each of its networks that names a controller group,
/// the identities of that group. A group that is named and not there is an error.
pub fn collect_controllers(
    canister_name: &String,
    networks: &StringMap<CanisterNetwork>,
    groups: &Option<StringMap<ControllerGroup>>,
) -> (r: Result<StringMap<ControllerIdentityMap>, DfxGenerationError>)
    ensures
        r is Ok <==> spec_groups_resolve(networks@, spec_groups(*groups)),
        r is Ok ==> r->Ok_0@ == spec_controllers(networks@, spec_groups(*groups)),
        r is Err ==> spec_unresolved(r->Err_0, canister_name@, networks@, spec_groups(*groups)),
{
    let mut controllers: StringMap<ControllerIdentityMap> = StringMap::new();
    assert(controllers@ =~= Seq::empty());
    let mut i: usize = 0;
    while i < networks.len()
        invariant
            i <= networks@.len(),
            spec_groups_resolve(networks@.take(i as int), spec_groups(*groups)),
            controllers@ == spec_controllers(networks@.take(i as int), spec_groups(*groups)),
        decreases networks@.len() - i,
    {
        proof {
            assert(networks@.take(i + 1).drop_last() =~= networks@.take(i as int));
            assert(networks@.take(i + 1).last() == networks@[i as int]);
        }
        let network_name = networks.key_at(i);
        let on = networks.value_at(i);
        assert(networks@[i as int] == (network_name@, on@));
        match &on.controllers {
            Some(group_name) => {
                let all = match groups {
                    Some(all) => all,
                    None => {
                        return Err(
                            DfxGenerationError::ControllerGroupMissing(canister_name.clone()),
                        );
                    },
                };
                let group = match all.get_value(group_name.as_str()) {
                    Some(group) => group,
                    None => {
                        return Err(
                            DfxGenerationError::ControllerGroupMismatch(
                                group_name.clone(),
                                canister_name.clone(),
                            ),
                        );
                    },
                };
                let _ = controllers.insert_value(network_name.clone(), group.controllers.clone());
            },
            None => {},
        }
        i = i + 1;
        assert forall|k: int| 0 <= k < i implies match (#[trigger] networks@.take(
            i as int,
        )[k]).1.controllers {
            Some(group) => spec_groups(*groups) is Some && spec_view_has_key(
                spec_groups(*groups)->Some_0,
                group,
            ),
            None => true,
        } by {
            if k < i - 1 {
                assert(networks@.take(i - 1)[k] == networks@.take(i as int)[k]);
            }
        }
    }
    assert(networks@.take(i as int) =~= networks@);
    Ok(controllers)
}

/// Put the dfx canisters of the given instances in, each under the name of its instance.
pub fn add_instances(
    canisters: &mut StringMap<DfxCanister>,
    instances: &Vec<CanisterInstance>,
    canister: &Canister,
    network_name: &String,
    wallet: &Option<String>,
    controllers: &StringMap<ControllerIdentityMap>,
)
    ensures
        final(canisters)@ == spec_add_instances(
            old(canisters)@,
            spec_instances(instances@),
            canister@,
            network_name@,
            spec_text(*wallet),
            controllers@,
        ),
{
    let ghost all = spec_instances(instances@);
    let mut i: usize = 0;
    while i < instances.len()
        invariant
            i <= instances@.len(),
            all == spec_instances(instances@),
            canisters@ == spec_add_instances(
                old(canisters)@,
                all.take(i as int),
                canister@,
                network_name@,
                spec_text(*wallet),
                controllers@,
            ),
        decreases instances@.len() - i,
    {
        proof {
            assert(all.take(i + 1).drop_last() =~= all.take(i as int));
            assert(all.take(i + 1).last() == instances@[i as int]@);
        }
        let instance = &instances[i];
        let mut wallets: StringMap<String> = StringMap::new();
        assert(wallets@ =~= Seq::empty());
        match wallet {
            Some(w) => {
                let _ = wallets.insert_value(network_name.clone(), w.clone());
                assert(wallets@ =~= seq![(network_name@, w@)]);
            },
            None => {},
        }
        let network_id_map: StringMap<String> = StringMap::new();
        assert(network_id_map@ =~= Seq::empty());
        let made = DfxCanister {
            name: instance.name.clone(),
            candid: canister.candid.clone(),
            wasm: canister.wasm.clone(),
            build: canister.build.clone(),
            supports_init_params: match canister.supports_init_params {
                Some(flag) => flag,
                None => false,
            },
            supports_stable_storage_backup_restore: match canister.supports_stable_storage_backup_restore {
                Some(flag) => flag,
                None => false,
            },
            network_id_map,
            wallet: Some(wallets),
            controllers: Some(clone_controllers(controllers)),
        };
        let _ = canisters.insert_value(instance.name.clone(), made);
        i = i + 1;
    }
    assert(all.take(i as int) =~= all);
}

/// Put the networks of one canister in: its instances on the network that the dfx
/// configuration is made for, and every network but the local one.
pub fn add_networks(
    canisters: &mut StringMap<DfxCanister>,
    dfx_networks: &mut StringMap<DfxNetwork>,
    canister: &Canister,
    network: &str,
    controllers: &StringMap<ControllerIdentityMap>,
)
    ensures
        (final(canisters)@, final(dfx_networks)@) == spec_add_networks(
            old(canisters)@,
            old(dfx_networks)@,
            canister@.networks,
            canister@,
            network@,
            controllers@,
        ),
{
    let ghost all = canister@.networks;
    let mut i: usize = 0;
    while i < canister.networks.len()
        invariant
            i <= all.len(),
            all == canister.networks@,
            (canisters@, dfx_networks@) == spec_add_networks(
                old(canisters)@,
                old(dfx_networks)@,
                all.take(i as int),
                canister@,
                network@,
                controllers@,
            ),
        decreases all.len() - i,
    {
        proof {
            assert(all.take(i + 1).drop_last() =~= all.take(i as int));
            assert(all.take(i + 1).last() == all[i as int]);
        }
        let network_name = canister.networks.key_at(i);
        let on = canister.networks.value_at(i);
        assert(all[i as int] == (network_name@, on@));
        // Only push the canisters of the requested network to dfx.json
        if str_equal(network_name.as_str(), network) {
            let instances = on.get_all_instances();
            assert(spec_instances(instances@) == spec_view_all_instances(on@));
            add_instances(canisters, &instances, canister, network_name, &on.wallet, controllers);
        }
        // Only insert non-local networks: dfx does not allow setting the local network
        // with a provider.
        if !str_equal(network_name.as_str(), "local") {
            let mut providers: Vec<String> = Vec::new();
            providers.push(on.provider.clone());
            assert(spec_texts(providers@) =~= seq![on.provider@]);
            let _ = dfx_networks.insert_value(
                network_name.clone(),
                DfxNetwork {
                    name: network_name.clone(),
                    providers: Some(providers),
                    bind: Some(on.provider.clone()),
                },
            );
        }
        i = i + 1;
    }
    assert(all.take(i as int) =~= all);
}

impl DfxConfig {
    /// The dfx configuration that is made of a configuration for a network: a dfx canister
    /// for every instance on that network, and a dfx network for every network but the
    /// local one. A controller group that is named and not there is an error.
    pub fn try_from_dscvr_for_network(root_file: DSCVRConfig, network: &str) -> (r: Result<
        Self,
        DfxGenerationError,
    >)
        ensures
            r is Ok <==> spec_config_resolves(root_file@),
            r is Ok ==> r->Ok_0@ == spec_dfx_config(root_file@, network@),
            r is Err ==> exists|c: int|
                0 <= c < root_file@.canisters.len() && spec_unresolved(
                    r->Err_0,
                    (#[trigger] root_file@.canisters[c]).0,
                    root_file@.canisters[c].1.networks,
                    root_file@.controller_groups,
                ),
    {
        let mut canisters: StringMap<DfxCanister> = StringMap::new();
        let mut networks: StringMap<DfxNetwork> = StringMap::new();
        assert(canisters@ =~= Seq::empty());
        assert(networks@ =~= Seq::empty());
        let ghost all = root_file@.canisters;
        let ghost groups = root_file@.controller_groups;
        let mut i: usize = 0;
        while i < root_file.canisters.len()
            invariant
                i <= all.len(),
                all == root_file.canisters@,
                groups == spec_groups(root_file.controller_groups),
                forall|c: int|
                    0 <= c < i ==> spec_groups_resolve((#[trigger] all[c]).1.networks, groups),
                (canisters@, networks@) == spec_add_canisters(all.take(i as int), groups, network@),
            decreases all.len() - i,
        {
            proof {
                assert(all.take(i + 1).drop_last() =~= all.take(i as int));
                assert(all.take(i + 1).last() == all[i as int]);
            }
            let canister_name = root_file.canisters.key_at(i);
            let canister = root_file.canisters.value_at(i);
            assert(all[i as int] == (canister_name@, canister@));
            let controllers = match collect_controllers(
                canister_name,
                &canister.networks,
                &root_file.controller_groups,
            ) {
                Ok(controllers) => controllers,
                Err(e) => {
                    assert(spec_unresolved(e, all[i as int].0, all[i as int].1.networks, groups));
                    return Err(e);
                },
            };
            add_networks(&mut canisters, &mut networks, canister, network, &controllers);
            i = i + 1;
        }
        assert(all.take(i as int) =~= all);
        let canister_setup_order: Vec<String> = Vec::new();
        assert(spec_texts(canister_setup_order@) =~= Seq::empty());
        Ok(DfxConfig { canisters, dfx: String::from_str("0.14.1"), networks, canister_setup_order })
    }
}

/// The ids after one id has been taken note of: the first id that is noted for an instance
/// on a network stays.
pub open spec fn spec_note_id(
    ids: Seq<(Seq<char>, Seq<(Seq<char>, Seq<char>)>)>,
    instance_name: Seq<char>,
    network_name: Seq<char>,
    id: Seq<char>,
) -> Seq<(Seq<char>, Seq<(Seq<char>, Seq<char>)>)> {
    if spec_view_has_key(ids, instance_name) {
        let at = spec_view_index_of(ids, instance_name);
        if spec_view_has_key(ids[at].1, network_name) {
            ids
        } else {
            ids.update(at, (instance_name, ids[at].1.push((network_name, id))))
        }
    } else {
        ids.push((instance_name, seq![(network_name, id)]))
    }
}

/// The ids after the ids of the given instances on a network have been taken note of.
pub open spec fn spec_note_instances(
    ids: Seq<(Seq<char>, Seq<(Seq<char>, Seq<char>)>)>,
    instances: Seq<CanisterInstanceView>,
    network_name: Seq<char>,
) -> Seq<(Seq<char>, Seq<(Seq<char>, Seq<char>)>)>
    decreases instances.len(),
{
    if instances.len() == 0 {
        ids
    } else {
        let before = spec_note_instances(ids, instances.drop_last(), network_name);
        match instances.last().id {
            Some(id) => spec_note_id(before, instances.last().name, network_name, id),
            None => before,
        }
    }
}

/// The ids after those of the instances of a canister have been taken note of: network by
/// network, the provisioned instances before the available ones.
pub open spec fn spec_note_networks(
    ids: Seq<(Seq<char>, Seq<(Seq<char>, Seq<char>)>)>,
    networks: Seq<(Seq<char>, CanisterNetworkView)>,
) -> Seq<(Seq<char>, Seq<(Seq<char>, Seq<char>)>)>
    decreases networks.len(),
{
    if networks.len() == 0 {
        ids
    } else {
        spec_note_instances(
            spec_note_instances(
                spec_note_networks(ids, networks.drop_last()),
                spec_or_empty(networks.last().1.provisioned_instances),
                networks.last().0,
            ),
            spec_or_empty(networks.last().1.available_instances),
            networks.last().0,
        )
    }
}

/// The ids of the instances of the canisters of a configuration.
pub open spec fn spec_canister_ids(canisters: Seq<(Seq<char>, CanisterView)>) -> Seq<
    (Seq<char>, Seq<(Seq<char>, Seq<char>)>),
>
    decreases canisters.len(),
{
    if canisters.len() == 0 {
        Seq::empty()
    } else {
        spec_note_networks(spec_canister_ids(canisters.drop_last()), canisters.last().1.networks)
    }
}

/// Take note of the ids of the given instances on a network.
pub fn note_instances(
    ids: &mut StringMap<StringMap<String>>,
    instances: &Vec<CanisterInstance>,
    network_name: &String,
)
    ensures
        final(ids)@ == spec_note_instances(old(ids)@, spec_instances(instances@), network_name@),
{
    let ghost all = spec_instances(instances@);
    let mut i: usize = 0;
    while i < instances.len()
        invariant
            i <= instances@.len(),
            all == spec_instances(instances@),
            ids@ == spec_note_instances(old(ids)@, all.take(i as int), network_name@),
        decreases instances@.len() - i,
    {
        proof {
            assert(all.take(i + 1).drop_last() =~= all.take(i as int));
            assert(all.take(i + 1).last() == instances@[i as int]@);
        }
        let instance = &instances[i];
        match &instance.id {
            Some(id) => {
                let found = ids.index_of(instance.name.as_str());
                proof {
                    lemma_view_index_of(ids.entries(), instance.name@);
                }
                match found {
                    Some(at) => {
                        if ids.value_at(at).get_value(network_name.as_str()).is_none() {
                            let mut inner = ids.set_value_at(at, StringMap::new());
                            let ghost before = inner@;
                            let _ = inner.insert_value(network_name.clone(), id.clone());
                            assert(inner@ =~= before.push((network_name@, id@)));
                            let _ = ids.set_value_at(at, inner);
                        }
                    },
                    None => {
                        let mut inner: StringMap<String> = StringMap::new();
                        assert(inner@ =~= Seq::empty());
                        let _ = inner.insert_value(network_name.clone(), id.clone());
                        assert(inner@ =~= seq![(network_name@, id@)]);
                        let _ = ids.insert_value(instance.name.clone(), inner);
                    },
                }
            },
            None => {},
        }
        i = i + 1;
    }
    assert(all.take(i as int) =~= all);
}

impl CanisterIds {
    /// The ids of the instances of the canisters of a configuration.
    pub fn from(root: DSCVRConfig) -> (r: Self)
        ensures
            r@ == spec_canister_ids(root@.canisters),
    {
        let mut ids: StringMap<StringMap<String>> = StringMap::new();
        assert(ids@ =~= Seq::empty());
        let ghost all = root@.canisters;
        let mut c: usize = 0;
        while c < root.canisters.len()
            invariant
                c <= all.len(),
                all == root.canisters@,
                ids@ == spec_canister_ids(all.take(c as int)),
            decreases all.len() - c,
        {
            proof {
                assert(all.take(c + 1).drop_last() =~= all.take(c as int));
                assert(all.take(c + 1).last() == all[c as int]);
            }
            let canister = root.canisters.value_at(c);
            let ghost networks = canister@.networks;
            assert(all[c as int].1 == canister@);
            let ghost start = ids@;
            let mut n: usize = 0;
            while n < canister.networks.len()
                invariant
                    n <= networks.len(),
                    networks == canister.networks@,
                    ids@ == spec_note_networks(start, networks.take(n as int)),
                decreases networks.len() - n,
            {
                proof {
                    assert(networks.take(n + 1).drop_last() =~= networks.take(n as int));
                    assert(networks.take(n + 1).last() == networks[n as int]);
                }
                let network_name = canister.networks.key_at(n);
                let on = canister.networks.value_at(n);
                assert(networks[n as int] == (network_name@, on@));
                match &on.provisioned_instances {
                    Some(provisioned) => {
                        note_instances(&mut ids, provisioned, network_name);
                    },
                    None => {},
                }
                match &on.available_instances {
                    Some(available) => {
                        note_instances(&mut ids, available, network_name);
                    },
                    None => {},
                }
                n = n + 1;
            }
            assert(networks.take(n as int) =~= networks);
            c = c + 1;
        }
        assert(all.take(c as int) =~= all);
        CanisterIds { ids }
    }
}

/// The dfx canister with another name.
pub open spec fn spec_named_canister(canister: DfxCanisterView, name: Seq<char>) -> DfxCanisterView {
    DfxCanisterView {
        name,
        wasm: canister.wasm,
        candid: canister.candid,
        supports_init_params: canister.supports_init_params,
        supports_stable_storage_backup_restore: canister.supports_stable_storage_backup_restore,
        network_id_map: canister.network_id_map,
        wallet: canister.wallet,
        controllers: canister.controllers,
        build: canister.build,
    }
}

/// The dfx network with another name.
pub open spec fn spec_named_network(network: DfxNetworkView, name: Seq<char>) -> DfxNetworkView {
    DfxNetworkView { name, providers: network.providers, bind: network.bind }
}

/// The dfx canisters, each with the name that it stands under.
pub open spec fn spec_named_canisters(canisters: Seq<(Seq<char>, DfxCanisterView)>) -> Seq<
    (Seq<char>, DfxCanisterView),
> {
    canisters.map_values(
        |entry: (Seq<char>, DfxCanisterView)| (entry.0, spec_named_canister(entry.1, entry.0)),
    )
}

/// The dfx networks, each with the name that it stands under.
pub open spec fn spec_named_networks(networks: Seq<(Seq<char>, DfxNetworkView)>) -> Seq<
    (Seq<char>, DfxNetworkView),
> {
    networks.map_values(
        |entry: (Seq<char>, DfxNetworkView)| (entry.0, spec_named_network(entry.1, entry.0)),
    )
}

/// The ids of a canister by network after those of `given` have been put in where the
/// network has none yet.
pub open spec fn spec_add_ids(
    network_id_map: Seq<(Seq<char>, Seq<char>)>,
    given: Seq<(Seq<char>, Seq<char>)>,
) -> Seq<(Seq<char>, Seq<char>)>
    decreases given.len(),
{
    if given.len() == 0 {
        network_id_map
    } else {
        let before = spec_add_ids(network_id_map, given.drop_last());
        if spec_view_has_key(before, given.last().0) {
            before
        } else {
            before.push(given.last())
        }
    }
}

/// The dfx canister with other ids.
pub open spec fn spec_with_ids(
    canister: DfxCanisterView,
    network_id_map: Seq<(Seq<char>, Seq<char>)>,
) -> DfxCanisterView {
    DfxCanisterView {
        name: canister.name,
        wasm: canister.wasm,
        candid: canister.candid,
        supports_init_params: canister.supports_init_params,
        supports_stable_storage_backup_restore: canister.supports_stable_storage_backup_restore,
        network_id_map,
        wallet: canister.wallet,
        controllers: canister.controllers,
        build: canister.build,
    }
}

/// The dfx canisters after the ids of a file have been put in: each canister that the file
/// names takes the ids of the networks for which it has none yet.
pub open spec fn spec_process_ids(
    canisters: Seq<(Seq<char>, DfxCanisterView)>,
    ids: Seq<(Seq<char>, Seq<(Seq<char>, Seq<char>)>)>,
) -> Seq<(Seq<char>, DfxCanisterView)>
    decreases ids.len(),
{
    if ids.len() == 0 {
        canisters
    } else {
        let before = spec_process_ids(canisters, ids.drop_last());
        if spec_view_has_key(before, ids.last().0) {
            let at = spec_view_index_of(before, ids.last().0);
            before.update(
                at,
                (
                    before[at].0,
                    spec_with_ids(
                        before[at].1,
                        spec_add_ids(before[at].1.network_id_map, ids.last().1),
                    ),
                ),
            )
        } else {
            before
        }
    }
}

/// The local network as dfx knows it.
pub open spec fn spec_local_dfx_network() -> DfxNetworkView {
    DfxNetworkView { name: "local"@, providers: None, bind: Some("127.0.0.1:8000"@) }
}

/// Put the ids of `given` in where the network has none yet.
pub fn add_ids(network_id_map: &mut StringMap<String>, given: &StringMap<String>)
    ensures
        final(network_id_map)@ == spec_add_ids(old(network_id_map)@, given@),
{
    let ghost all = given@;
    let mut i: usize = 0;
    while i < given.len()
        invariant
            i <= all.len(),
            all == given@,
            network_id_map@ == spec_add_ids(old(network_id_map)@, all.take(i as int)),
        decreases all.len() - i,
    {
        proof {
            assert(all.take(i + 1).drop_last() =~= all.take(i as int));
            assert(all.take(i + 1).last() == all[i as int]);
        }
        let network_name = given.key_at(i);
        let id = given.value_at(i);
        assert(all[i as int] == (network_name@, id@));
        if network_id_map.get_value(network_name.as_str()).is_none() {
            let _ = network_id_map.insert_value(network_name.clone(), id.clone());
        }
        i = i + 1;
    }
    assert(all.take(i as int) =~= all);
}

impl DfxConfig {
    /// Give every canister and every network the name that it stands under.
    pub fn update_names(&mut self)
        ensures
            final(self)@.canisters == spec_named_canisters(old(self)@.canisters),
            final(self)@.networks == spec_named_networks(old(self)@.networks),
            final(self)@.canister_setup_order == old(self)@.canister_setup_order,
            final(self)@.dfx == old(self)@.dfx,
    {
        let ghost canisters = self.canisters@;
        let mut i: usize = 0;
        while i < self.canisters.len()
            invariant
                i <= canisters.len(),
                self.canisters@.len() == canisters.len(),
                self.networks == old(self).networks,
                self.canister_setup_order == old(self).canister_setup_order,
                self.dfx == old(self).dfx,
                forall|k: int|
                    0 <= k < i ==> self.canisters@[k] == spec_named_canisters(canisters)[k],
                forall|k: int| i <= k < canisters.len() ==> self.canisters@[k] == canisters[k],
            decreases canisters.len() - i,
        {
            let name = self.canisters.key_at(i).clone();
            assert(self.canisters@[i as int].0 == name@);
            let empty: StringMap<String> = StringMap::new();
            let blank = DfxCanister {
                name: String::new(),
                wasm: String::new(),
                candid: String::new(),
                supports_init_params: false,
                supports_stable_storage_backup_restore: false,
                network_id_map: empty,
                wallet: None,
                controllers: None,
                build: String::new(),
            };
            let mut canister = self.canisters.set_value_at(i, blank);
            canister.name = name;
            let _ = self.canisters.set_value_at(i, canister);
            i = i + 1;
        }
        assert(self.canisters@ =~= spec_named_canisters(canisters));
        let ghost networks = self.networks@;
        let mut j: usize = 0;
        while j < self.networks.len()
            invariant
                j <= networks.len(),
                self.networks@.len() == networks.len(),
                self.canisters@ == spec_named_canisters(canisters),
                self.canister_setup_order == old(self).canister_setup_order,
                self.dfx == old(self).dfx,
                forall|k: int| 0 <= k < j ==> self.networks@[k] == spec_named_networks(networks)[k],
                forall|k: int| j <= k < networks.len() ==> self.networks@[k] == networks[k],
            decreases networks.len() - j,
        {
            let name = self.networks.key_at(j).clone();
            assert(self.networks@[j as int].0 == name@);
            let blank = DfxNetwork { name: String::new(), providers: None, bind: None };
            let mut network = self.networks.set_value_at(j, blank);
            network.name = name;
            let _ = self.networks.set_value_at(j, network);
            j = j + 1;
        }
        assert(self.networks@ =~= spec_named_networks(networks));
    }

    /// Put the ids of a file in: each canister that the file names takes the ids of the
    /// networks for which it has none yet.
    pub fn process_canister_id_file(&mut self, id_map: &CanisterIds)
        ensures
            final(self)@.canisters == spec_process_ids(old(self)@.canisters, id_map@),
            final(self)@.networks == old(self)@.networks,
            final(self)@.canister_setup_order == old(self)@.canister_setup_order,
            final(self)@.dfx == old(self)@.dfx,
            final(self).networks == old(self).networks,
    {
        let ghost all = id_map@;
        let mut i: usize = 0;
        while i < id_map.ids.len()
            invariant
                i <= all.len(),
                all == id_map.ids@,
                self.networks == old(self).networks,
                self.canister_setup_order == old(self).canister_setup_order,
                self.dfx == old(self).dfx,
                self.canisters@ == spec_process_ids(old(self)@.canisters, all.take(i as int)),
            decreases all.len() - i,
        {
            proof {
                assert(all.take(i + 1).drop_last() =~= all.take(i as int));
                assert(all.take(i + 1).last() == all[i as int]);
            }
            let name = id_map.ids.key_at(i);
            let given = id_map.ids.value_at(i);
            assert(all[i as int] == (name@, given@));
            let found = self.canisters.index_of(name.as_str());
            proof {
                lemma_view_index_of(self.canisters.entries(), name@);
            }
            match found {
                Some(at) => {
                    let empty: StringMap<String> = StringMap::new();
                    let blank = DfxCanister {
                        name: String::new(),
                        wasm: String::new(),
                        candid: String::new(),
                        supports_init_params: false,
                        supports_stable_storage_backup_restore: false,
                        network_id_map: empty,
                        wallet: None,
                        controllers: None,
                        build: String::new(),
                    };
                    let mut canister = self.canisters.set_value_at(at, blank);
                    add_ids(&mut canister.network_id_map, given);
                    let _ = self.canisters.set_value_at(at, canister);
                },
                None => {},
            }
            i = i + 1;
        }
        assert(all.take(i as int) =~= all);
    }

    /// Put the local network in, as dfx knows it.
    pub fn insert_local_network(&mut self)
        ensures
            final(self)@.networks == spec_view_insert(
                old(self)@.networks,
                "local"@,
                spec_local_dfx_network(),
            ),
            final(self)@.canisters == old(self)@.canisters,
            final(self)@.canister_setup_order == old(self)@.canister_setup_order,
            final(self)@.dfx == old(self)@.dfx,
    {
        let _ = self.networks.insert_value(
            String::from_str("local"),
            DfxNetwork {
                name: String::from_str("local"),
                providers: None,
                bind: Some(String::from_str("127.0.0.1:8000")),
            },
        );
    }
}

/// Whether `after` is `before` with the parent path joined to its identities: everything
/// but the paths of the identities is as it was.
pub open spec fn spec_joined(before: DfxCanisterView, after: DfxCanisterView) -> bool {
    &&& after.name == before.name
    &&& after.wasm == before.wasm
    &&& after.candid == before.candid
    &&& after.supports_init_params == before.supports_init_params
    &&& after.supports_stable_storage_backup_restore
        == before.supports_stable_storage_backup_restore
    &&& after.network_id_map == before.network_id_map
    &&& after.wallet == before.wallet
    &&& after.build == before.build
    &&& match (before.controllers, after.controllers) {
        (Some(before), Some(after)) => before.len() == after.len() && forall|k: int|
            0 <= k < before.len() ==> (#[trigger] after[k]).0 == before[k].0
                && spec_same_types(before[k].1, after[k].1),
        (None, None) => true,
        _ => false,
    }
}

/// Whether `after` holds the canisters of `before`, under the same names, with the parent
/// path joined to their identities.
pub open spec fn spec_all_joined(
    before: Seq<(Seq<char>, DfxCanisterView)>,
    after: Seq<(Seq<char>, DfxCanisterView)>,
) -> bool {
    &&& before.len() == after.len()
    &&& forall|k: int|
        0 <= k < before.len() ==> (#[trigger] after[k]).0 == before[k].0 && spec_joined(
            before[k].1,
            after[k].1,
        )
}

/// The dfx canisters after the ids of the files of the given networks have been put in,
/// network by network, where there is such a file.
pub open spec fn spec_process_network_ids(
    canisters: Seq<(Seq<char>, DfxCanisterView)>,
    networks: Seq<Seq<char>>,
    files: Seq<(Seq<char>, Seq<(Seq<char>, Seq<(Seq<char>, Seq<char>)>)>)>,
) -> Seq<(Seq<char>, DfxCanisterView)>
    decreases networks.len(),
{
    if networks.len() == 0 {
        canisters
    } else {
        let before = spec_process_network_ids(canisters, networks.drop_last(), files);
        match spec_view_get(files, networks.last()) {
            Some(ids) => spec_process_ids(before, ids),
            None => before,
        }
    }
}

/// The names of the entries, in order.
pub open spec fn spec_names<W>(entries: Seq<(Seq<char>, W)>) -> Seq<Seq<char>> {
    entries.map_values(|entry: (Seq<char>, W)| entry.0)
}

/// The dfx canisters after the ids of all files have been put in: first those of the ids
/// that are shared, then those of each network.
pub open spec fn spec_init_ids(
    canisters: Seq<(Seq<char>, DfxCanisterView)>,
    networks: Seq<Seq<char>>,
    shared: Option<Seq<(Seq<char>, Seq<(Seq<char>, Seq<char>)>)>>,
    files: Seq<(Seq<char>, Seq<(Seq<char>, Seq<(Seq<char>, Seq<char>)>)>)>,
) -> Seq<(Seq<char>, DfxCanisterView)> {
    spec_process_network_ids(
        match shared {
            Some(ids) => spec_process_ids(canisters, ids),
            None => canisters,
        },
        networks,
        files,
    )
}

/// What the ids hold, if there are any.
pub open spec fn spec_optional_ids(ids: Option<CanisterIds>) -> Option<
    Seq<(Seq<char>, Seq<(Seq<char>, Seq<char>)>)>,
> {
    match ids {
        Some(ids) => Some(ids@),
        None => None,
    }
}

/// A copy of a network configuration.
pub fn clone_dfx_network(network: &DfxNetwork) -> (r: DfxNetwork)
    ensures
        r@ == network@,
{
    let providers = match &network.providers {
        Some(providers) => {
            let mut copy: Vec<String> = Vec::new();
            let mut i: usize = 0;
            while i < providers.len()
                invariant
                    i <= providers@.len(),
                    copy@.len() == i,
                    forall|k: int| 0 <= k < i ==> (#[trigger] copy@[k])@ == providers@[k]@,
                decreases providers@.len() - i,
            {
                copy.push(providers[i].clone());
                i = i + 1;
            }
            assert(spec_texts(copy@) =~= spec_texts(providers@));
            Some(copy)
        },
        None => None,
    };
    DfxNetwork {
        name: network.name.clone(),
        providers,
        bind: match &network.bind {
            Some(bind) => Some(bind.clone()),
            None => None,
        },
    }
}

/// A copy of a string.
pub fn clone_string(text: &String) -> (r: String)
    ensures
        r@ == text@,
{
    text.clone()
}

/// A copy of a map of strings.
pub fn clone_strings(map: &StringMap<String>) -> (r: StringMap<String>)
    ensures
        r@ == map@,
{
    let copy = map.clone_with(clone_string);
    assert(copy@ =~= map@);
    copy
}

/// A copy of a canister configuration.
pub fn clone_dfx_canister(canister: &DfxCanister) -> (r: DfxCanister)
    ensures
        r@ == canister@,
{
    DfxCanister {
        name: canister.name.clone(),
        wasm: canister.wasm.clone(),
        candid: canister.candid.clone(),
        supports_init_params: canister.supports_init_params,
        supports_stable_storage_backup_restore: canister.supports_stable_storage_backup_restore,
        network_id_map: clone_strings(&canister.network_id_map),
        wallet: match &canister.wallet {
            Some(wallet) => Some(clone_strings(wallet)),
            None => None,
        },
        controllers: match &canister.controllers {
            Some(controllers) => Some(clone_controllers(controllers)),
            None => None,
        },
        build: canister.build.clone(),
    }
}

impl Clone for DfxConfig {
    fn clone(&self) -> (r: Self)
        ensures
            r@ == self@,
    {
        let canisters = self.canisters.clone_with(clone_dfx_canister);
        assert(canisters@ =~= self.canisters@);
        let networks = self.networks.clone_with(clone_dfx_network);
        assert(networks@ =~= self.networks@);
        let mut canister_setup_order: Vec<String> = Vec::new();
        let mut i: usize = 0;
        while i < self.canister_setup_order.len()
            invariant
                i <= self.canister_setup_order@.len(),
                canister_setup_order@.len() == i,
                forall|k: int|
                    0 <= k < i ==> (#[trigger] canister_setup_order@[k])@
                        == self.canister_setup_order@[k]@,
            decreases self.canister_setup_order@.len() - i,
        {
            canister_setup_order.push(self.canister_setup_order[i].clone());
            i = i + 1;
        }
        assert(spec_texts(canister_setup_order@) =~= spec_texts(self.canister_setup_order@));
        DfxConfig { canisters, networks, canister_setup_order, dfx: self.dfx.clone() }
    }
}

/// Join the parent path to the path of every identity that controls the canister.
pub fn join_parent_to_canister(canister: &mut DfxCanister, parent: &std::path::Path)
    ensures
        spec_joined(old(canister)@, final(canister)@),
{
    let mut controllers: Option<StringMap<ControllerIdentityMap>> = None;
    core::mem::swap(&mut controllers, &mut canister.controllers);
    match controllers {
        Some(networks) => {
            let mut networks = networks;
            let ghost before = networks@;
            let mut i: usize = 0;
            while i < networks.len()
                invariant
                    i <= before.len(),
                    networks@.len() == before.len(),
                    forall|k: int|
                        0 <= k < i ==> (#[trigger] networks@[k]).0 == before[k].0
                            && spec_same_types(before[k].1, networks@[k].1),
                    forall|k: int| i <= k < before.len() ==> networks@[k] == before[k],
                decreases before.len() - i,
            {
                let mut identities = networks.set_value_at(i, ControllerIdentityMap::new());
                identities.join_parent(parent);
                let _ = networks.set_value_at(i, identities);
                i = i + 1;
            }
            canister.controllers = Some(networks);
        },
        None => {},
    }
}

impl DfxConfig {
    /// Join the parent path to the path of every identity.
    pub fn join_parent(&mut self, parent: &std::path::Path)
        ensures
            spec_all_joined(old(self)@.canisters, final(self)@.canisters),
            final(self)@.networks == old(self)@.networks,
            final(self)@.canister_setup_order == old(self)@.canister_setup_order,
            final(self)@.dfx == old(self)@.dfx,
    {
        let ghost before = self.canisters@;
        let mut i: usize = 0;
        while i < self.canisters.len()
            invariant
                i <= before.len(),
                self.canisters@.len() == before.len(),
                self.networks == old(self).networks,
                self.canister_setup_order == old(self).canister_setup_order,
                self.dfx == old(self).dfx,
                forall|k: int|
                    0 <= k < i ==> (#[trigger] self.canisters@[k]).0 == before[k].0
                        && spec_joined(before[k].1, self.canisters@[k].1),
                forall|k: int| i <= k < before.len() ==> self.canisters@[k] == before[k],
            decreases before.len() - i,
        {
            let empty: StringMap<String> = StringMap::new();
            let blank = DfxCanister {
                name: String::new(),
                wasm: String::new(),
                candid: String::new(),
                supports_init_params: false,
                supports_stable_storage_backup_restore: false,
                network_id_map: empty,
                wallet: None,
                controllers: None,
                build: String::new(),
            };
            let mut canister = self.canisters.set_value_at(i, blank);
            join_parent_to_canister(&mut canister, parent);
            let _ = self.canisters.set_value_at(i, canister);
            i = i + 1;
        }
        assert forall|k: int| 0 <= k < before.len() implies (#[trigger] self.canisters@[k]).0
            == before[k].0 && spec_joined(before[k].1, self.canisters@[k].1) by {}
    }

    /// Walk through the ids that are shared and those of each network
    /// to initialize the name -> string map
    pub fn init_canister_id_map(
        &mut self,
        shared: &Option<CanisterIds>,
        network_canister_ids: &StringMap<CanisterIds>,
    )
        ensures
            final(self)@.canisters == spec_init_ids(
                old(self)@.canisters,
                spec_names(old(self)@.networks),
                spec_optional_ids(*shared),
                network_canister_ids@,
            ),
            final(self)@.networks == old(self)@.networks,
            final(self)@.canister_setup_order == old(self)@.canister_setup_order,
            final(self)@.dfx == old(self)@.dfx,
    {
        match shared {
            Some(ids) => {
                self.process_canister_id_file(ids);
            },
            None => {},
        }
        let ghost start = self.canisters@;
        let ghost names = spec_names(self.networks@);
        let mut i: usize = 0;
        while i < self.networks.len()
            invariant
                i <= names.len(),
                names == spec_names(self.networks@),
                self.networks == old(self).networks,
                self@.canister_setup_order == old(self)@.canister_setup_order,
                self@.dfx == old(self)@.dfx,
                self.canisters@ == spec_process_network_ids(
                    start,
                    names.take(i as int),
                    network_canister_ids@,
                ),
            decreases names.len() - i,
        {
            proof {
                assert(names.take(i + 1).drop_last() =~= names.take(i as int));
                assert(names.take(i + 1).last() == names[i as int]);
            }
            let key = self.networks.key_at(i).clone();
            assert(names[i as int] == key@) by {
                assert(self.networks@[i as int].0 == key@);
            }
            match network_canister_ids.get_value(key.as_str()) {
                Some(ids) => {
                    self.process_canister_id_file(ids);
                },
                None => {},
            }
            i = i + 1;
        }
        assert(names.take(i as int) =~= names);
    }

    /// Create a configuration from what the file `dfx.json` holds: every canister and every
    /// network takes the name that it stands under, the local network is put in, the parent
    /// path is joined to the path of every identity, and the ids of the canisters are put in
    /// from the ids that are shared and from those of each network.
    pub fn new_from_file(
        config: DfxConfig,
        parent: &std::path::Path,
        shared: &Option<CanisterIds>,
        network_canister_ids: &StringMap<CanisterIds>,
    ) -> (r: Self)
        ensures
            r@.networks == spec_view_insert(
                spec_named_networks(config@.networks),
                "local"@,
                spec_local_dfx_network(),
            ),
            r@.canister_setup_order == config@.canister_setup_order,
            r@.dfx == config@.dfx,
            exists|joined: Seq<(Seq<char>, DfxCanisterView)>|
                spec_all_joined(spec_named_canisters(config@.canisters), joined) && r@.canisters
                    == #[trigger] spec_init_ids(
                    joined,
                    spec_names(r@.networks),
                    spec_optional_ids(*shared),
                    network_canister_ids@,
                ),
    {
        let mut val = config;
        val.update_names();
        // create an entry for the local network
        val.insert_local_network();
        // initialize identities
        val.join_parent(parent);
        let ghost joined = val@.canisters;
        val.init_canister_id_map(shared, network_canister_ids);
        assert(val@.canisters == spec_init_ids(
            joined,
            spec_names(val@.networks),
            spec_optional_ids(*shared),
            network_canister_ids@,
        ));
        val
    }
}

impl DfxGenerationError {
    /// The text of this error.
    pub open spec fn spec_to_string(self) -> Seq<char> {
        match self {
            DfxGenerationError::ControllerGroupMismatch(group, _) => "Controller Group "@ + group@
                + " Specified for Canister "@ + group@ + " not found in DSCVRRoot"@,
            DfxGenerationError::ControllerGroupMissing(canister) =>
                "Controller Groups Specified for Canister "@ + canister@
                + " but no Controller Groups found in DSCVRRoot"@,
        }
    }

    /// The text of this error. Where a controller group is not there, the text names the
    /// group in the place of the canister too.
    pub fn to_string(&self) -> (text: String)
        ensures
            text@ == self.spec_to_string(),
    {
        match self {
            DfxGenerationError::ControllerGroupMismatch(group, _) => {
                let mut text = String::from_str("Controller Group ");
                text.append(group.as_str());
                text.append(" Specified for Canister ");
                text.append(group.as_str());
                text.append(" not found in DSCVRRoot");
                text
            },
            DfxGenerationError::ControllerGroupMissing(canister) => {
                let mut text = String::from_str("Controller Groups Specified for Canister ");
                text.append(canister.as_str());
                text.append(" but no Controller Groups found in DSCVRRoot");
                text
            },
        }
    }
}

} // verus!
