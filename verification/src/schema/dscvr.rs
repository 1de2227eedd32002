//! Configuration for dscvr.json

pub mod allocate;
pub mod persist;
pub mod provision;

use crate::canister_init_arguments::ControllerType;
use crate::ic_identity_util::IdentityFromFile;
use crate::schema::dfx::ControllerIdentityMap;
use crate::string_map::{
    lemma_view_index_of, spec_is_at, spec_view_get, spec_view_has_key, spec_view_index_of,
    spec_view_insert, StringMap,
};
use crate::text::str_equal;
use vstd::prelude::*;
use vstd::string::StringExecFns;

verus! {

/// The name of the network that runs on the developer's machine.
pub const LOCAL_NETWORK_NAME: &'static str = "local";

/// The name of the production network.
pub const PRODUCTION_NETWORK_NAME: &'static str = "ic";

/// What stands between the name of a canister and the number of an instance.
pub const NAME_DELIMITER: &'static str = ":";

/// Why a configuration could not be changed.
#[derive(Debug)]
pub enum DSCVRGenerationError {
    /// No available instance matches the name.
    CanisterRegistrationError(String),
    /// The named element is missing from the configuration.
    MissingElement(String),
    /// The canister has no available instances on the network: canister, network, what was
    /// being done.
    NoAvailableCanisterInstances(String, String, String),
    /// Instances could not be provisioned.
    ProvisionError(String),
}

/// An instance of a canister on a network.
#[derive(Debug)]
pub struct CanisterInstance {
    /// Plaintext name of the instance
    /// Maps to the `canister_name` in dfx.json
    pub name: String,
    /// Canister ID of the instance.  Corresponds to the ID
    /// for the canister found in `canister_ids.json`
    pub id: Option<String>,
}

/// What a canister instance holds.
pub struct CanisterInstanceView {
    pub name: Seq<char>,
    pub id: Option<Seq<char>>,
}

/// What an optional string holds.
pub open spec fn spec_text(text: Option<String>) -> Option<Seq<char>> {
    match text {
        Some(text) => Some(text@),
        None => None,
    }
}

impl View for CanisterInstance {
    type V = CanisterInstanceView;

    open spec fn view(&self) -> CanisterInstanceView {
        CanisterInstanceView { name: self.name@, id: spec_text(self.id) }
    }
}

/// A copy of an optional string.
pub fn clone_text(text: &Option<String>) -> (r: Option<String>)
    ensures
        spec_text(r) == spec_text(*text),
{
    match text {
        Some(text) => Some(text.clone()),
        None => None,
    }
}

impl Clone for CanisterInstance {
    fn clone(&self) -> (r: Self)
        ensures
            r@ == self@,
    {
        CanisterInstance { name: self.name.clone(), id: clone_text(&self.id) }
    }
}

impl Default for CanisterInstance {
    fn default() -> (r: Self)
        ensures
            r@ == (CanisterInstanceView { name: Seq::empty(), id: None }),
    {
        CanisterInstance { name: String::new(), id: None }
    }
}

/// What the instances hold, in order.
pub open spec fn spec_instances(instances: Seq<CanisterInstance>) -> Seq<CanisterInstanceView> {
    instances.map_values(|instance: CanisterInstance| instance@)
}

/// What the instances hold, if there are any.
pub open spec fn spec_optional_instances(instances: Option<Vec<CanisterInstance>>) -> Option<
    Seq<CanisterInstanceView>,
> {
    match instances {
        Some(instances) => Some(spec_instances(instances@)),
        None => None,
    }
}

/// A copy of the instances.
pub fn clone_instances(instances: &Vec<CanisterInstance>) -> (r: Vec<CanisterInstance>)
    ensures
        spec_instances(r@) == spec_instances(instances@),
{
    let mut out: Vec<CanisterInstance> = Vec::new();
    let mut i: usize = 0;
    while i < instances.len()
        invariant
            i <= instances@.len(),
            out@.len() == i,
            spec_instances(out@) == spec_instances(instances@.take(i as int)),
        decreases instances@.len() - i,
    {
        let ghost before = out@;
        let copy = instances[i].clone();
        out.push(copy);
        i = i + 1;
        assert forall|j: int| 0 <= j < i implies spec_instances(out@)[j] == spec_instances(
            instances@.take(i as int),
        )[j] by {
            if j < i - 1 {
                assert(spec_instances(before)[j] == spec_instances(instances@.take(i - 1))[j]);
            }
        }
        assert(spec_instances(out@) =~= spec_instances(instances@.take(i as int)));
    }
    assert(instances@.take(i as int) =~= instances@);
    out
}

/// A copy of the instances, if there are any.
pub fn clone_optional_instances(instances: &Option<Vec<CanisterInstance>>) -> (r: Option<
    Vec<CanisterInstance>,
>)
    ensures
        spec_optional_instances(r) == spec_optional_instances(*instances),
{
    match instances {
        Some(instances) => Some(clone_instances(instances)),
        None => None,
    }
}

/// A canister on one network.
#[derive(Debug)]
pub struct CanisterNetwork {
    /// Provider URL
    pub provider: String,
    /// Name of the corresponding `ControllerGroup` (if any)
    /// for this network.
    pub controllers: Option<String>,
    /// List of instances that have been created and have this canisters
    /// wasm module installed on this network.
    pub provisioned_instances: Option<Vec<CanisterInstance>>,
    /// List of instances that have been created _but do not yet_ have the
    /// corresponding wasm module installed on this network.
    /// These are available to be provisioned.
    pub available_instances: Option<Vec<CanisterInstance>>,
    /// Wallet id to use with this canister (if applicable)
    /// We can move this to instance level if we desire.
    pub wallet: Option<String>,
}

/// What a canister on one network holds.
pub struct CanisterNetworkView {
    pub provider: Seq<char>,
    pub controllers: Option<Seq<char>>,
    pub provisioned_instances: Option<Seq<CanisterInstanceView>>,
    pub available_instances: Option<Seq<CanisterInstanceView>>,
    pub wallet: Option<Seq<char>>,
}

impl View for CanisterNetwork {
    type V = CanisterNetworkView;

    open spec fn view(&self) -> CanisterNetworkView {
        CanisterNetworkView {
            provider: self.provider@,
            controllers: spec_text(self.controllers),
            provisioned_instances: spec_optional_instances(self.provisioned_instances),
            available_instances: spec_optional_instances(self.available_instances),
            wallet: spec_text(self.wallet),
        }
    }
}

impl Clone for CanisterNetwork {
    fn clone(&self) -> (r: Self)
        ensures
            r@ == self@,
    {
        CanisterNetwork {
            provider: self.provider.clone(),
            controllers: clone_text(&self.controllers),
            provisioned_instances: clone_optional_instances(&self.provisioned_instances),
            available_instances: clone_optional_instances(&self.available_instances),
            wallet: clone_text(&self.wallet),
        }
    }
}

impl Default for CanisterNetwork {
    fn default() -> (r: Self)
        ensures
            r@ == (CanisterNetworkView {
                provider: Seq::empty(),
                controllers: None,
                provisioned_instances: None,
                available_instances: None,
                wallet: None,
            }),
    {
        CanisterNetwork {
            provider: String::new(),
            controllers: None,
            provisioned_instances: None,
            available_instances: None,
            wallet: None,
        }
    }
}

/// Whether the instance matches a search: by its name where a name is given, else by its
/// id, where an instance without an id has the empty id.
pub open spec fn spec_matches(
    instance: CanisterInstance,
    instance_name: Option<Seq<char>>,
    instance_id: Option<Seq<char>>,
) -> bool {
    match instance_name {
        Some(name) => instance.name@ == name,
        None => match instance_id {
            Some(id) => match instance.id {
                Some(own) => own@ == id,
                None => id.len() == 0,
            },
            None => false,
        },
    }
}

/// Whether the instance at `index` is the first that matches a search.
pub open spec fn spec_is_first_match(
    instances: Seq<CanisterInstance>,
    instance_name: Option<Seq<char>>,
    instance_id: Option<Seq<char>>,
    index: int,
) -> bool {
    &&& 0 <= index < instances.len()
    &&& spec_matches(instances[index], instance_name, instance_id)
    &&& forall|j: int| 0 <= j < index ==> !spec_matches(#[trigger] instances[j], instance_name, instance_id)
}

/// Whether no instance matches a search.
pub open spec fn spec_no_match(
    instances: Seq<CanisterInstance>,
    instance_name: Option<Seq<char>>,
    instance_id: Option<Seq<char>>,
) -> bool {
    forall|j: int| 0 <= j < instances.len() ==> !spec_matches(#[trigger] instances[j], instance_name, instance_id)
}

/// What a reference to an optional string holds.
pub open spec fn spec_text_ref(text: Option<&String>) -> Option<Seq<char>> {
    match text {
        Some(text) => Some(text@),
        None => None,
    }
}

/// The place of the first instance that matches a search.
pub fn search_instances(
    instances: &Vec<CanisterInstance>,
    instance_name: Option<&String>,
    instance_id: Option<&String>,
) -> (r: Option<usize>)
    ensures
        r is Some ==> spec_is_first_match(
            instances@,
            spec_text_ref(instance_name),
            spec_text_ref(instance_id),
            r->Some_0 as int,
        ),
        r is None ==> spec_no_match(
            instances@,
            spec_text_ref(instance_name),
            spec_text_ref(instance_id),
        ),
{
    let mut i: usize = 0;
    while i < instances.len()
        invariant
            i <= instances@.len(),
            forall|j: int|
                0 <= j < i ==> !spec_matches(
                    #[trigger] instances@[j],
                    spec_text_ref(instance_name),
                    spec_text_ref(instance_id),
                ),
        decreases instances@.len() - i,
    {
        let found = match instance_name {
            Some(name) => str_equal(instances[i].name.as_str(), name.as_str()),
            None => match instance_id {
                Some(id) => match &instances[i].id {
                    Some(own) => str_equal(own.as_str(), id.as_str()),
                    None => {
                        let empty = String::new();
                        assert(id@.len() == 0 <==> empty@ =~= id@);
                        str_equal(empty.as_str(), id.as_str())
                    },
                },
                None => false,
            },
        };
        if found {
            return Some(i);
        }
        i = i + 1;
    }
    None
}

/// What a search among optional instances finds: the first match, if there are instances
/// and one of them matches.
pub open spec fn spec_found(
    instances: Option<Vec<CanisterInstance>>,
    instance_name: Option<Seq<char>>,
    instance_id: Option<Seq<char>>,
    found: Option<&CanisterInstance>,
) -> bool {
    match instances {
        Some(instances) => match found {
            Some(instance) => exists|index: int|
                spec_is_first_match(instances@, instance_name, instance_id, index)
                    && #[trigger] instances@[index] == *instance,
            None => spec_no_match(instances@, instance_name, instance_id),
        },
        None => found is None,
    }
}

impl CanisterNetwork {
    /// The first provisioned instance that matches the search.
    pub fn search_provisioned(
        &self,
        instance_name: Option<&String>,
        instance_id: Option<&String>,
    ) -> (r: Option<&CanisterInstance>)
        ensures
            spec_found(
                self.provisioned_instances,
                spec_text_ref(instance_name),
                spec_text_ref(instance_id),
                r,
            ),
    {
        match &self.provisioned_instances {
            Some(instances) => match search_instances(instances, instance_name, instance_id) {
                Some(i) => Some(&instances[i]),
                None => None,
            },
            None => None,
        }
    }

    /// The first available instance that matches the search.
    pub fn search_available(
        &self,
        instance_name: Option<&String>,
        instance_id: Option<&String>,
    ) -> (r: Option<&CanisterInstance>)
        ensures
            spec_found(
                self.available_instances,
                spec_text_ref(instance_name),
                spec_text_ref(instance_id),
                r,
            ),
    {
        match &self.available_instances {
            Some(instances) => match search_instances(instances, instance_name, instance_id) {
                Some(i) => Some(&instances[i]),
                None => None,
            },
            None => None,
        }
    }

    /// The first provisioned instance that matches the search or, where none does, the
    /// first available one.
    pub fn find_instance(
        &self,
        instance_name: Option<&String>,
        instance_id: Option<&String>,
    ) -> (r: Option<&CanisterInstance>)
        ensures
            spec_found(
                self.provisioned_instances,
                spec_text_ref(instance_name),
                spec_text_ref(instance_id),
                r,
            ) && r is Some || spec_found(
                self.provisioned_instances,
                spec_text_ref(instance_name),
                spec_text_ref(instance_id),
                None,
            ) && spec_found(
                self.available_instances,
                spec_text_ref(instance_name),
                spec_text_ref(instance_id),
                r,
            ),
    {
        match self.search_provisioned(instance_name, instance_id) {
            Some(instance) => Some(instance),
            None => self.search_available(instance_name, instance_id),
        }
    }

    /// What the provisioned instances hold, followed by what the available ones hold.
    pub open spec fn spec_all_instances(&self) -> Seq<CanisterInstanceView> {
        (match self.provisioned_instances {
            Some(instances) => spec_instances(instances@),
            None => Seq::empty(),
        }) + (match self.available_instances {
            Some(instances) => spec_instances(instances@),
            None => Seq::empty(),
        })
    }

    /// Gets all instances for the current CanisterNetwork.
    /// This includes both `provisioned_instances` of a canister
    /// (where a wasm has been installed) and `available_instances`
    /// of a canister (where the canister is created, but no
    /// wasm has yet been installed).
    pub fn get_all_instances(&self) -> (r: Vec<CanisterInstance>)
        ensures
            spec_instances(r@) == self.spec_all_instances(),
    {
        let mut provisioned = match &self.provisioned_instances {
            Some(instances) => clone_instances(instances),
            None => Vec::new(),
        };
        let mut available = match &self.available_instances {
            Some(instances) => clone_instances(instances),
            None => Vec::new(),
        };
        let ghost first = provisioned@;
        let ghost second = available@;
        provisioned.append(&mut available);
        assert(spec_instances(first + second) =~= spec_instances(first) + spec_instances(second));
        provisioned
    }

    /// Gets only `available_instances` of the canister
    /// for the current CanisterNetwork.
    pub fn get_available_instances(&self) -> (r: Option<Vec<CanisterInstance>>)
        ensures
            spec_optional_instances(r) == spec_optional_instances(self.available_instances),
    {
        clone_optional_instances(&self.available_instances)
    }

    /// Gets only `provisioned_instances` of the canister
    /// for the current CanisterNetwork.
    pub fn get_provisioned_instances(&self) -> (r: Option<Vec<CanisterInstance>>)
        ensures
            spec_optional_instances(r) == spec_optional_instances(self.provisioned_instances),
    {
        clone_optional_instances(&self.provisioned_instances)
    }
}

/// A group of identities that control canisters.
#[derive(Debug)]
pub struct ControllerGroup {
    /// The identity of each controller type
    pub controllers: ControllerIdentityMap,
}

impl View for ControllerGroup {
    type V = Seq<(ControllerType, IdentityFromFile)>;

    open spec fn view(&self) -> Seq<(ControllerType, IdentityFromFile)> {
        self.controllers.entries()
    }
}

impl Clone for ControllerGroup {
    fn clone(&self) -> (r: Self)
        ensures
            r@ == self@,
    {
        ControllerGroup { controllers: self.controllers.clone() }
    }
}

/// A canister: how it is built, and where it runs.
#[derive(Debug)]
pub struct Canister {
    /// List of networks and their configuration settings
    /// for this canister.  Maps loosely to dfx.json providers.
    pub networks: StringMap<CanisterNetwork>,
    /// Path to this canisters candid (.did) file
    pub candid: String,
    /// Path to canister's wasm module
    pub wasm: String,
    /// Canister build specific instructions
    pub build: String,
    /// Maps to custom dscvr field used in dfx.json
    pub supports_init_params: Option<bool>,
    /// Maps to custom dscvr field used in dfx.json
    pub supports_stable_storage_backup_restore: Option<bool>,
}

/// What a canister holds.
pub struct CanisterView {
    pub networks: Seq<(Seq<char>, CanisterNetworkView)>,
    pub candid: Seq<char>,
    pub wasm: Seq<char>,
    pub build: Seq<char>,
    pub supports_init_params: Option<bool>,
    pub supports_stable_storage_backup_restore: Option<bool>,
}

impl View for Canister {
    type V = CanisterView;

    open spec fn view(&self) -> CanisterView {
        CanisterView {
            networks: self.networks@,
            candid: self.candid@,
            wasm: self.wasm@,
            build: self.build@,
            supports_init_params: self.supports_init_params,
            supports_stable_storage_backup_restore: self.supports_stable_storage_backup_restore,
        }
    }
}

/// A copy of a canister on one network.
pub fn clone_network(network: &CanisterNetwork) -> (r: CanisterNetwork)
    ensures
        r@ == network@,
{
    network.clone()
}

/// A copy of a controller group.
pub fn clone_group(group: &ControllerGroup) -> (r: ControllerGroup)
    ensures
        r@ == group@,
{
    group.clone()
}

/// A copy of the networks of a canister.
pub fn clone_networks(networks: &StringMap<CanisterNetwork>) -> (r: StringMap<CanisterNetwork>)
    ensures
        r@ == networks@,
{
    let copy = networks.clone_with(clone_network);
    assert(copy@ =~= networks@);
    copy
}

impl Clone for Canister {
    fn clone(&self) -> (r: Self)
        ensures
            r@ == self@,
    {
        Canister {
            networks: clone_networks(&self.networks),
            candid: self.candid.clone(),
            wasm: self.wasm.clone(),
            build: self.build.clone(),
            supports_init_params: self.supports_init_params,
            supports_stable_storage_backup_restore: self.supports_stable_storage_backup_restore,
        }
    }
}

impl Default for Canister {
    fn default() -> (r: Self)
        ensures
            r@ == (CanisterView {
                networks: Seq::empty(),
                candid: Seq::empty(),
                wasm: Seq::empty(),
                build: Seq::empty(),
                supports_init_params: None,
                supports_stable_storage_backup_restore: None,
            }),
    {
        let networks: StringMap<CanisterNetwork> = StringMap::new();
        assert(networks@ =~= Seq::empty());
        Canister {
            networks,
            candid: String::new(),
            wasm: String::new(),
            build: String::new(),
            supports_init_params: None,
            supports_stable_storage_backup_restore: None,
        }
    }
}

/// Configuration file for multi-canister support: the canisters by name and, by name too,
/// the controller groups that their networks refer to.
#[derive(Debug)]
pub struct DSCVRConfig {
    /// Stores the canister configurations, on a per name basis.
    pub canisters: StringMap<Canister>,
    /// Reusable controller groups stored by name.
    /// Groups can be assigned to canisters on a per-network level.
    pub controller_groups: Option<StringMap<ControllerGroup>>,
}

/// What a configuration holds.
pub struct DSCVRConfigView {
    pub canisters: Seq<(Seq<char>, CanisterView)>,
    pub controller_groups: Option<Seq<(Seq<char>, Seq<(ControllerType, IdentityFromFile)>)>>,
}

/// What the controller groups hold, if there are any.
pub open spec fn spec_groups(groups: Option<StringMap<ControllerGroup>>) -> Option<
    Seq<(Seq<char>, Seq<(ControllerType, IdentityFromFile)>)>,
> {
    match groups {
        Some(groups) => Some(groups@),
        None => None,
    }
}

impl View for DSCVRConfig {
    type V = DSCVRConfigView;

    open spec fn view(&self) -> DSCVRConfigView {
        DSCVRConfigView {
            canisters: self.canisters@,
            controller_groups: spec_groups(self.controller_groups),
        }
    }
}

/// A copy of a canister.
pub fn clone_canister(canister: &Canister) -> (r: Canister)
    ensures
        r@ == canister@,
{
    canister.clone()
}

/// A copy of the canisters of a configuration.
pub fn clone_canisters(canisters: &StringMap<Canister>) -> (r: StringMap<Canister>)
    ensures
        r@ == canisters@,
{
    let copy = canisters.clone_with(clone_canister);
    assert(copy@ =~= canisters@);
    copy
}

/// A copy of the controller groups of a configuration.
pub fn clone_groups(groups: &Option<StringMap<ControllerGroup>>) -> (r: Option<
    StringMap<ControllerGroup>,
>)
    ensures
        spec_groups(r) == spec_groups(*groups),
{
    match groups {
        Some(groups) => {
            let copy = groups.clone_with(clone_group);
            assert(copy@ =~= groups@);
            Some(copy)
        },
        None => None,
    }
}

impl Clone for DSCVRConfig {
    fn clone(&self) -> (r: Self)
        ensures
            r@ == self@,
    {
        DSCVRConfig {
            canisters: clone_canisters(&self.canisters),
            controller_groups: clone_groups(&self.controller_groups),
        }
    }
}

/// Why the controllers of a canister on a network were not found.
#[derive(Debug)]
pub enum ControllerLookupError {
    /// No canister has this name.
    CanisterNotFound(String),
    /// The canister does not run on the network: network, canister.
    NetworkNotFound(String, String),
    /// The canister names no controller group for the network: canister, network.
    ControllersNotListed(String, String),
    /// The configuration holds no controller groups.
    NoControllerGroups,
    /// The configuration holds no controller group of this name: canister, network, group.
    ControllerGroupNotFound(String, String, String),
}

impl DSCVRConfig {
    /// The canister named `canister_name`.
    pub open spec fn spec_canister(&self, canister_name: Seq<char>) -> Option<Canister> {
        self.canisters.spec_get(canister_name)
    }

    /// The canister named `canister_name` on `network`.
    pub open spec fn spec_canister_network(&self, canister_name: Seq<char>, network: Seq<char>) -> Option<
        CanisterNetwork,
    > {
        match self.spec_canister(canister_name) {
            Some(canister) => canister.networks.spec_get(network),
            None => None,
        }
    }

    /// The provisioned instances of the canister on the network, if the canister runs there
    /// and has any.
    pub fn get_all_provisioned_instances(&self, canister: &str, network: &str) -> (r: Option<
        Vec<CanisterInstance>,
    >)
        ensures
            spec_optional_instances(r) == match self.spec_canister_network(canister@, network@) {
                Some(found) => spec_optional_instances(found.provisioned_instances),
                None => None,
            },
    {
        match self.get_canister_network(canister, network) {
            Some(found) => found.get_provisioned_instances(),
            None => None,
        }
    }

    /// All instances of the canister on the network, if the canister runs there.
    pub fn get_all_instances(&self, canister: &str, network: &str) -> (r: Option<
        Vec<CanisterInstance>,
    >)
        ensures
            spec_optional_instances(r) == match self.spec_canister_network(canister@, network@) {
                Some(found) => Some(found.spec_all_instances()),
                None => None,
            },
    {
        match self.get_canister_network(canister, network) {
            Some(found) => Some(found.get_all_instances()),
            None => None,
        }
    }

    /// The canister named `canister_name`.
    pub fn get_canister(&self, canister_name: &str) -> (r: Option<&Canister>)
        ensures
            r is Some <==> self.spec_canister(canister_name@) is Some,
            r is Some ==> self.spec_canister(canister_name@) == Some(*r->Some_0),
    {
        self.canisters.get(canister_name)
    }

    /// The canister named `canister_name` on `network`.
    pub fn get_canister_network(&self, canister_name: &str, network: &str) -> (r: Option<
        &CanisterNetwork,
    >)
        ensures
            r is Some <==> self.spec_canister_network(canister_name@, network@) is Some,
            r is Some ==> self.spec_canister_network(canister_name@, network@) == Some(
                *r->Some_0,
            ),
    {
        match self.get_canister(canister_name) {
            Some(canister) => canister.networks.get(network),
            None => None,
        }
    }

    /// The name of the controller group of the canister on the network.
    pub open spec fn spec_controller_group_name(
        &self,
        canister_name: Seq<char>,
        network: Seq<char>,
    ) -> Option<String> {
        match self.spec_canister_network(canister_name, network) {
            Some(found) => found.controllers,
            None => None,
        }
    }

    /// The controller group of the canister on the network.
    pub open spec fn spec_controller_group(&self, canister_name: Seq<char>, network: Seq<char>) -> Option<
        ControllerGroup,
    > {
        match self.spec_controller_group_name(canister_name, network) {
            Some(name) => match self.controller_groups {
                Some(groups) => groups.spec_get(name@),
                None => None,
            },
            None => None,
        }
    }

    /// The identity that controls the canister on the network as `controller`.
    pub fn get_controller(
        &self,
        canister_name: &str,
        network: &str,
        controller: ControllerType,
    ) -> (r: Option<&IdentityFromFile>)
        ensures
            r is Some <==> self.spec_controller_group(canister_name@, network@) is Some
                && self.spec_controller_group(
                canister_name@,
                network@,
            )->Some_0.controllers.spec_contains_key(controller),
            r is Some ==> self.spec_controller_group(
                canister_name@,
                network@,
            )->Some_0.controllers.spec_get(controller) == Some(*r->Some_0),
    {
        match self.get_all_controllers_for_canister_network(canister_name, network) {
            Ok(group) => group.controllers.get(&controller),
            Err(_) => None,
        }
    }

    /// The controller group of the canister on the network, or what is missing of the
    /// canister, the network, the name of the group, the groups, and the group of that name,
    /// in this order.
    pub fn get_all_controllers_for_canister_network(&self, canister_name: &str, network: &str) -> (r:
        Result<&ControllerGroup, ControllerLookupError>)
        ensures
            r is Ok <==> self.spec_controller_group(canister_name@, network@) is Some,
            r is Ok ==> self.spec_controller_group(canister_name@, network@) == Some(*r->Ok_0),
            r is Err ==> (match r->Err_0 {
                ControllerLookupError::CanisterNotFound(canister) => self.spec_canister(
                    canister_name@,
                ) is None && canister@ == canister_name@,
                ControllerLookupError::NetworkNotFound(on, canister) => self.spec_canister(
                    canister_name@,
                ) is Some && self.spec_canister_network(canister_name@, network@) is None && on@
                    == network@ && canister@ == canister_name@,
                ControllerLookupError::ControllersNotListed(canister, on) => {
                    &&& self.spec_canister_network(canister_name@, network@) is Some
                    &&& self.spec_controller_group_name(canister_name@, network@) is None
                    &&& on@ == network@
                    &&& canister@ == canister_name@
                },
                ControllerLookupError::NoControllerGroups => self.spec_controller_group_name(
                    canister_name@,
                    network@,
                ) is Some && self.controller_groups is None,
                ControllerLookupError::ControllerGroupNotFound(canister, on, group) => {
                    &&& self.spec_controller_group_name(canister_name@, network@) is Some
                    &&& self.controller_groups is Some
                    &&& group@ == self.spec_controller_group_name(
                        canister_name@,
                        network@,
                    )->Some_0@
                    &&& on@ == network@
                    &&& canister@ == canister_name@
                },
            }),
    {
        let canister = match self.get_canister(canister_name) {
            Some(canister) => canister,
            None => {
                return Err(ControllerLookupError::CanisterNotFound(String::from_str(canister_name)));
            },
        };
        let found = match canister.networks.get(network) {
            Some(found) => found,
            None => {
                return Err(
                    ControllerLookupError::NetworkNotFound(
                        String::from_str(network),
                        String::from_str(canister_name),
                    ),
                );
            },
        };
        let controller_group = match &found.controllers {
            Some(name) => name,
            None => {
                return Err(
                    ControllerLookupError::ControllersNotListed(
                        String::from_str(canister_name),
                        String::from_str(network),
                    ),
                );
            },
        };
        let groups = match &self.controller_groups {
            Some(groups) => groups,
            None => {
                return Err(ControllerLookupError::NoControllerGroups);
            },
        };
        match groups.get(controller_group.as_str()) {
            Some(group) => Ok(group),
            None => Err(
                ControllerLookupError::ControllerGroupNotFound(
                    String::from_str(canister_name),
                    String::from_str(network),
                    controller_group.clone(),
                ),
            ),
        }
    }
}

/// Whether the view of a configuration holds the canister on the network.
pub open spec fn spec_view_has_network(
    config: DSCVRConfigView,
    canister_name: Seq<char>,
    network: Seq<char>,
) -> bool {
    spec_view_has_key(config.canisters, canister_name) && spec_view_has_key(
        config.canisters[spec_view_index_of(config.canisters, canister_name)].1.networks,
        network,
    )
}

/// What the canister on the network holds in the view of a configuration.
pub open spec fn spec_view_network(
    config: DSCVRConfigView,
    canister_name: Seq<char>,
    network: Seq<char>,
) -> CanisterNetworkView {
    let networks = config.canisters[spec_view_index_of(config.canisters, canister_name)].1.networks;
    networks[spec_view_index_of(networks, network)].1
}

/// The view of a configuration in which the canister on the network holds `replacement`,
/// and everything else is as it was.
pub open spec fn spec_view_with_network(
    config: DSCVRConfigView,
    canister_name: Seq<char>,
    network: Seq<char>,
    replacement: CanisterNetworkView,
) -> DSCVRConfigView {
    let at = spec_view_index_of(config.canisters, canister_name);
    let canister = config.canisters[at].1;
    let on = spec_view_index_of(canister.networks, network);
    DSCVRConfigView {
        canisters: config.canisters.update(
            at,
            (
                canister_name,
                CanisterView {
                    networks: canister.networks.update(on, (network, replacement)),
                    candid: canister.candid,
                    wasm: canister.wasm,
                    build: canister.build,
                    supports_init_params: canister.supports_init_params,
                    supports_stable_storage_backup_restore: canister.supports_stable_storage_backup_restore,
                },
            ),
        ),
        controller_groups: config.controller_groups,
    }
}

/// The text that names a network of a canister where it is missing.
pub open spec fn spec_missing_network(canister_name: Seq<char>, network: Seq<char>) -> Seq<char> {
    canister_name + "."@ + network + " "@
}

impl DSCVRConfig {
    /// The places of the canister and of the network among its networks, or what is missing.
    pub fn get_canister_for_network_mut(&self, canister_name: &str, network: &str) -> (r: Result<
        (usize, usize),
        DSCVRGenerationError,
    >)
        ensures
            r is Ok <==> spec_view_has_network(self@, canister_name@, network@),
            r is Ok ==> {
                let (at, on) = r->Ok_0;
                &&& spec_is_at(self.canisters.entries(), canister_name@, at as int)
                &&& spec_is_at(
                    self.canisters.entries()[at as int].1.networks.entries(),
                    network@,
                    on as int,
                )
                &&& at == spec_view_index_of(self@.canisters, canister_name@)
                &&& on == spec_view_index_of(self@.canisters[at as int].1.networks, network@)
            },
            r is Err ==> r->Err_0 is MissingElement && r->Err_0->MissingElement_0@ == if spec_view_has_key(
                self@.canisters,
                canister_name@,
            ) {
                spec_missing_network(canister_name@, network@)
            } else {
                canister_name@
            },
    {
        let found = self.canisters.index_of(canister_name);
        proof {
            lemma_view_index_of(self.canisters.entries(), canister_name@);
        }
        let at = match found {
            Some(at) => at,
            None => {
                return Err(DSCVRGenerationError::MissingElement(String::from_str(canister_name)));
            },
        };
        let networks = &self.canisters.value_at(at).networks;
        let found = networks.index_of(network);
        proof {
            lemma_view_index_of(networks.entries(), network@);
        }
        match found {
            Some(on) => Ok((at, on)),
            None => {
                let mut text = String::from_str(canister_name);
                text.append(".");
                text.append(network);
                text.append(" ");
                Err(DSCVRGenerationError::MissingElement(text))
            },
        }
    }

    /// Put `replacement` in the place of the network at `on` of the canister at `at`.
    pub fn set_network(&mut self, at: usize, on: usize, replacement: CanisterNetwork)
        requires
            at < old(self).canisters.entries().len(),
            on < old(self).canisters.entries()[at as int].1.networks.entries().len(),
        ensures
            final(self)@.controller_groups == old(self)@.controller_groups,
            final(self)@.canisters == old(self)@.canisters.update(
                at as int,
                (
                    old(self)@.canisters[at as int].0,
                    CanisterView {
                        networks: old(self)@.canisters[at as int].1.networks.update(
                            on as int,
                            (
                                old(self)@.canisters[at as int].1.networks[on as int].0,
                                replacement@,
                            ),
                        ),
                        candid: old(self)@.canisters[at as int].1.candid,
                        wasm: old(self)@.canisters[at as int].1.wasm,
                        build: old(self)@.canisters[at as int].1.build,
                        supports_init_params: old(self)@.canisters[at as int].1.supports_init_params,
                        supports_stable_storage_backup_restore: old(self)@.canisters[at as int].1.supports_stable_storage_backup_restore,
                    },
                ),
            ),
    {
        let mut canister = self.canisters.replace_value_at(at, Canister::default());
        let ghost before = canister;
        let _ = canister.networks.replace_value_at(on, replacement);
        assert(canister.networks@ =~= before.networks@.update(
            on as int,
            (before.networks@[on as int].0, replacement@),
        ));
        let _ = self.canisters.replace_value_at(at, canister);
        assert(self.canisters@ =~= old(self).canisters@.update(
            at as int,
            (old(self).canisters@[at as int].0, canister@),
        ));
    }
}

/// The available instances of a canister on the production network.
pub open spec fn spec_production_available(networks: Seq<(Seq<char>, CanisterNetworkView)>) -> Option<
    Seq<CanisterInstanceView>,
> {
    match spec_view_get(networks, "ic"@) {
        Some(production) => production.available_instances,
        None => None,
    }
}

/// The provisioned instances of a canister on the production network.
pub open spec fn spec_production_provisioned(networks: Seq<(Seq<char>, CanisterNetworkView)>) -> Option<
    Seq<CanisterInstanceView>,
> {
    match spec_view_get(networks, "ic"@) {
        Some(production) => production.provisioned_instances,
        None => None,
    }
}

/// The network with other instances.
pub open spec fn spec_with_instances(
    network: CanisterNetworkView,
    provisioned: Option<Seq<CanisterInstanceView>>,
    available: Option<Seq<CanisterInstanceView>>,
) -> CanisterNetworkView {
    CanisterNetworkView {
        provider: network.provider,
        controllers: network.controllers,
        provisioned_instances: provisioned,
        available_instances: available,
        wallet: network.wallet,
    }
}

/// Whether the instances of production are copied to the network of this name.
pub open spec fn spec_is_target(target: Option<Seq<char>>, name: Seq<char>) -> bool {
    match target {
        Some(target) => target == name,
        None => true,
    }
}

/// The networks of a canister after the instances of production have been copied to the
/// target, or to every network where no target is named.
pub open spec fn spec_copied_networks(
    networks: Seq<(Seq<char>, CanisterNetworkView)>,
    target: Option<Seq<char>>,
) -> Seq<(Seq<char>, CanisterNetworkView)> {
    networks.map_values(
        |entry: (Seq<char>, CanisterNetworkView)|
            if spec_is_target(target, entry.0) {
                (
                    entry.0,
                    spec_with_instances(
                        entry.1,
                        spec_production_provisioned(networks),
                        spec_production_available(networks),
                    ),
                )
            } else {
                entry
            },
    )
}

/// The canister with other networks.
pub open spec fn spec_canister_with_networks(
    canister: CanisterView,
    networks: Seq<(Seq<char>, CanisterNetworkView)>,
) -> CanisterView {
    CanisterView {
        networks,
        candid: canister.candid,
        wasm: canister.wasm,
        build: canister.build,
        supports_init_params: canister.supports_init_params,
        supports_stable_storage_backup_restore: canister.supports_stable_storage_backup_restore,
    }
}

/// The canisters after the instances of production have been copied.
pub open spec fn spec_copied_canisters(
    canisters: Seq<(Seq<char>, CanisterView)>,
    target: Option<Seq<char>>,
) -> Seq<(Seq<char>, CanisterView)> {
    canisters.map_values(
        |entry: (Seq<char>, CanisterView)|
            (
                entry.0,
                spec_canister_with_networks(entry.1, spec_copied_networks(entry.1.networks, target)),
            ),
    )
}

/// What the name of a network holds, if one is given.
pub open spec fn spec_name(name: Option<&str>) -> Option<Seq<char>> {
    match name {
        Some(name) => Some(name@),
        None => None,
    }
}

/// The canisters of `base` after one canister of a local configuration has been merged in:
/// a canister that `base` holds takes the local network of the local one, if that has one,
/// and a canister that `base` does not hold is put behind the others.
pub open spec fn spec_merge_canister(
    base: Seq<(Seq<char>, CanisterView)>,
    local: (Seq<char>, CanisterView),
) -> Seq<(Seq<char>, CanisterView)> {
    if spec_view_has_key(base, local.0) {
        match spec_view_get(local.1.networks, "local"@) {
            Some(network) => {
                let at = spec_view_index_of(base, local.0);
                base.update(
                    at,
                    (
                        local.0,
                        spec_canister_with_networks(
                            base[at].1,
                            spec_view_insert(base[at].1.networks, "local"@, network),
                        ),
                    ),
                )
            },
            None => base,
        }
    } else {
        base.push(local)
    }
}

/// The canisters of `base` after the canisters of a local configuration have been merged
/// in, one after the other.
pub open spec fn spec_merged_canisters(
    base: Seq<(Seq<char>, CanisterView)>,
    local: Seq<(Seq<char>, CanisterView)>,
) -> Seq<(Seq<char>, CanisterView)>
    decreases local.len(),
{
    if local.len() == 0 {
        base
    } else {
        spec_merge_canister(spec_merged_canisters(base, local.drop_last()), local.last())
    }
}

impl Canister {
    /// Copy the instances that the canister has on the production network to its network
    /// `network_name`, or to every network where no name is given.
    pub fn copy_production_instances_to_network(&mut self, network_name: Option<&str>)
        ensures
            final(self)@ == spec_canister_with_networks(
                old(self)@,
                spec_copied_networks(old(self)@.networks, spec_name(network_name)),
            ),
    {
        let ghost before = self.networks@;
        let production = self.networks.get_value("ic");
        let available = match production {
            Some(production) => clone_optional_instances(&production.available_instances),
            None => None,
        };
        let provisioned = match production {
            Some(production) => clone_optional_instances(&production.provisioned_instances),
            None => None,
        };
        let mut i: usize = 0;
        while i < self.networks.len()
            invariant
                i <= before.len(),
                self.networks@.len() == before.len(),
                self.candid == old(self).candid,
                self.wasm == old(self).wasm,
                self.build == old(self).build,
                self.supports_init_params == old(self).supports_init_params,
                self.supports_stable_storage_backup_restore == old(self).supports_stable_storage_backup_restore,
                spec_optional_instances(available) == spec_production_available(before),
                spec_optional_instances(provisioned) == spec_production_provisioned(before),
                forall|k: int|
                    0 <= k < i ==> self.networks@[k] == spec_copied_networks(
                        before,
                        spec_name(network_name),
                    )[k],
                forall|k: int| i <= k < before.len() ==> self.networks@[k] == before[k],
            decreases before.len() - i,
        {
            let is_target = match network_name {
                Some(name) => str_equal(name, self.networks.key_at(i).as_str()),
                None => true,
            };
            assert(self.networks@[i as int].0 == self.networks.entries()[i as int].0@);
            if is_target {
                let mut network = self.networks.value_at(i).clone();
                network.available_instances = clone_optional_instances(&available);
                network.provisioned_instances = clone_optional_instances(&provisioned);
                let _ = self.networks.set_value_at(i, network);
            }
            i = i + 1;
        }
        assert(self.networks@ =~= spec_copied_networks(before, spec_name(network_name)));
    }
}

impl DSCVRConfig {
    /// Helper function to copy the current production canister
    /// instances to another network.  Useful for mimicking prod
    /// to local | staging.
    pub fn copy_production_instances_to_network(&mut self, network_name: Option<&str>)
        ensures
            final(self)@.controller_groups == old(self)@.controller_groups,
            final(self)@.canisters == spec_copied_canisters(
                old(self)@.canisters,
                spec_name(network_name),
            ),
    {
        let ghost before = self.canisters@;
        let mut i: usize = 0;
        while i < self.canisters.len()
            invariant
                i <= before.len(),
                self.canisters@.len() == before.len(),
                self.controller_groups == old(self).controller_groups,
                forall|k: int|
                    0 <= k < i ==> self.canisters@[k] == spec_copied_canisters(
                        before,
                        spec_name(network_name),
                    )[k],
                forall|k: int| i <= k < before.len() ==> self.canisters@[k] == before[k],
            decreases before.len() - i,
        {
            let mut canister = self.canisters.set_value_at(i, Canister::default());
            canister.copy_production_instances_to_network(network_name);
            let _ = self.canisters.set_value_at(i, canister);
            i = i + 1;
        }
        assert(self.canisters@ =~= spec_copied_canisters(before, spec_name(network_name)));
    }

    /// Merge the canisters of a local configuration into this one.
    pub fn merge(&mut self, local_config: &DSCVRConfig)
        ensures
            final(self)@.controller_groups == old(self)@.controller_groups,
            final(self)@.canisters == spec_merged_canisters(
                old(self)@.canisters,
                local_config@.canisters,
            ),
    {
        let ghost before = self.canisters@;
        let ghost local = local_config@.canisters;
        let mut i: usize = 0;
        while i < local_config.canisters.len()
            invariant
                i <= local.len(),
                local == local_config@.canisters,
                self.controller_groups == old(self).controller_groups,
                self.canisters@ == spec_merged_canisters(before, local.take(i as int)),
            decreases local.len() - i,
        {
            proof {
                assert(local.take(i + 1).drop_last() =~= local.take(i as int));
                assert(local.take(i + 1).last() == local[i as int]);
            }
            let name = local_config.canisters.key_at(i);
            let canister = local_config.canisters.value_at(i);
            assert(local[i as int] == (name@, canister@));
            let found = self.canisters.index_of(name.as_str());
            proof {
                lemma_view_index_of(self.canisters.entries(), name@);
            }
            match found {
                Some(at) => {
                    match canister.networks.get_value("local") {
                        Some(network) => {
                            let mut own = self.canisters.set_value_at(at, Canister::default());
                            let _ = own.networks.insert_value(
                                String::from_str("local"),
                                network.clone(),
                            );
                            let _ = self.canisters.set_value_at(at, own);
                            assert(self.canisters@ =~= spec_merge_canister(
                                spec_merged_canisters(before, local.take(i as int)),
                                local[i as int],
                            ));
                        },
                        None => {},
                    }
                },
                None => {
                    let _ = self.canisters.insert_value(name.clone(), canister.clone());
                },
            }
            i = i + 1;
        }
        assert(local.take(i as int) =~= local);
    }
}

impl DSCVRGenerationError {
    /// The text of this error.
    pub open spec fn spec_to_string(self) -> Seq<char> {
        match self {
            DSCVRGenerationError::CanisterRegistrationError(name) =>
                "Error registering available canister.  Cannot find match for "@ + name@,
            DSCVRGenerationError::MissingElement(element) => element@
                + " is missing from the configuration"@,
            DSCVRGenerationError::NoAvailableCanisterInstances(canister, network, doing) =>
                "Cannot find "@ + canister@ + "."@ + network@ + ".available_instances to "@
                + doing@,
            DSCVRGenerationError::ProvisionError(text) => text@,
        }
    }

    /// The text of this error.
    pub fn to_string(&self) -> (text: String)
        ensures
            text@ == self.spec_to_string(),
    {
        match self {
            DSCVRGenerationError::CanisterRegistrationError(name) => {
                let mut text = String::from_str(
                    "Error registering available canister.  Cannot find match for ",
                );
                text.append(name.as_str());
                text
            },
            DSCVRGenerationError::MissingElement(element) => {
                let mut text = element.clone();
                text.append(" is missing from the configuration");
                text
            },
            DSCVRGenerationError::NoAvailableCanisterInstances(canister, network, doing) => {
                let mut text = String::from_str("Cannot find ");
                text.append(canister.as_str());
                text.append(".");
                text.append(network.as_str());
                text.append(".available_instances to ");
                text.append(doing.as_str());
                text
            },
            DSCVRGenerationError::ProvisionError(text) => text.clone(),
        }
    }
}

impl ControllerLookupError {
    /// The text of this error.
    pub open spec fn spec_to_string(self) -> Seq<char> {
        match self {
            ControllerLookupError::CanisterNotFound(canister) => canister@ + " not found"@,
            ControllerLookupError::NetworkNotFound(network, canister) => "Network "@ + network@
                + " does not exist for canister "@ + canister@,
            ControllerLookupError::ControllersNotListed(canister, network) =>
                "Controllers group not listed on "@ + canister@ + ":"@ + network@,
            ControllerLookupError::NoControllerGroups =>
                "No controller groups listed in document root"@,
            ControllerLookupError::ControllerGroupNotFound(canister, network, group) =>
                "No ControllerGroup found for "@ + canister@ + ":"@ + network@ + ":"@ + group@,
        }
    }

    /// The text of this error.
    pub fn to_string(&self) -> (text: String)
        ensures
            text@ == self.spec_to_string(),
    {
        match self {
            ControllerLookupError::CanisterNotFound(canister) => {
                let mut text = canister.clone();
                text.append(" not found");
                text
            },
            ControllerLookupError::NetworkNotFound(network, canister) => {
                let mut text = String::from_str("Network ");
                text.append(network.as_str());
                text.append(" does not exist for canister ");
                text.append(canister.as_str());
                text
            },
            ControllerLookupError::ControllersNotListed(canister, network) => {
                let mut text = String::from_str("Controllers group not listed on ");
                text.append(canister.as_str());
                text.append(":");
                text.append(network.as_str());
                text
            },
            ControllerLookupError::NoControllerGroups => String::from_str(
                "No controller groups listed in document root",
            ),
            ControllerLookupError::ControllerGroupNotFound(canister, network, group) => {
                let mut text = String::from_str("No ControllerGroup found for ");
                text.append(canister.as_str());
                text.append(":");
                text.append(network.as_str());
                text.append(":");
                text.append(group.as_str());
                text
            },
        }
    }
}

} // verus!
