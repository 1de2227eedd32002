//! The configuration of the canisters: which canisters there are, on which networks they
//! run, and which identities control them.
//!
//! The configuration is kept in files. The functions below work on what the files hold and
//! leave it to the caller to read the files before and to write them afterwards.

pub mod dfx;
pub mod dscvr;

use crate::schema::dfx::{spec_canister_ids, spec_dfx_config, CanisterIds, DfxConfig, DfxConfigView, DfxGenerationError};
use crate::schema::dscvr::persist::{spec_default_config, spec_local_config};
use crate::schema::dscvr::{
    spec_copied_canisters, spec_instances, spec_merged_canisters, CanisterInstance,
    CanisterInstanceView, DSCVRConfig, DSCVRConfigView, DSCVRGenerationError,
};
use crate::string_map::{spec_view_get, StringMap};
use crate::text::str_equal;
use vstd::prelude::*;
use vstd::string::StringExecFns;

verus! {

/// The file that holds the dfx configuration.
pub const DEFAULT_DFX_CONFIG_PATH: &'static str = "./dfx.json";

/// The file that holds the configuration that is shared.
pub const DEFAULT_DSCVR_CONFIG_PATH: &'static str = "./dscvr.json";

/// The file that holds the ids of the canisters.
pub const DEFAULT_CANISTER_IDS_PATH: &'static str = "./canister_ids.json";

/// The file that holds the configuration of the local network.
pub const LOCAL_DSCVR_CONFIG_PATH: &'static str = "./dscvr.local.json";

/// The file that holds the ids of the canisters on the local network.
pub const LOCAL_CANISTER_IDS_PATH: &'static str = "./.dfx/local/canister_ids.json";

/// What the configuration files hold. A file that is not there holds nothing.
#[derive(Debug)]
pub struct ConfigFiles {
    /// `./dscvr.json`
    pub dscvr: Option<DSCVRConfig>,
    /// `./dscvr.local.json`
    pub dscvr_local: Option<DSCVRConfig>,
    /// `./dfx.json`
    pub dfx: Option<DfxConfig>,
    /// `./canister_ids.json`
    pub canister_ids: Option<CanisterIds>,
    /// `./.dfx/<network>/canister_ids.json`, by the name of the network
    pub network_canister_ids: StringMap<CanisterIds>,
}

/// Why a configuration could not be read, changed or written.
#[derive(Debug)]
pub enum ConfigError {
    /// The file of this name is not there.
    MissingFile(String),
    /// The configuration could not be changed.
    Dscvr(DSCVRGenerationError),
    /// No dfx configuration could be made.
    Dfx(DfxGenerationError),
}

/// What a configuration holds, if there is one.
pub open spec fn spec_config(config: Option<DSCVRConfig>) -> Option<DSCVRConfigView> {
    match config {
        Some(config) => Some(config@),
        None => None,
    }
}

/// What a dfx configuration holds, if there is one.
pub open spec fn spec_dfx(config: Option<DfxConfig>) -> Option<DfxConfigView> {
    match config {
        Some(config) => Some(config@),
        None => None,
    }
}

/// What the ids hold, if there are any.
pub open spec fn spec_ids(ids: Option<CanisterIds>) -> Option<
    Seq<(Seq<char>, Seq<(Seq<char>, Seq<char>)>)>,
> {
    match ids {
        Some(ids) => Some(ids@),
        None => None,
    }
}

impl ConfigFiles {
    /// No files.
    pub fn new() -> (r: Self)
        ensures
            r.dscvr is None,
            r.dscvr_local is None,
            r.dfx is None,
            r.canister_ids is None,
            r.network_canister_ids@.len() == 0,
    {
        ConfigFiles {
            dscvr: None,
            dscvr_local: None,
            dfx: None,
            canister_ids: None,
            network_canister_ids: StringMap::new(),
        }
    }
}

/// The configuration after the instances of production have been copied to the local network
/// and everything but the local network has been left out: what a local file is first made
/// of.
pub open spec fn spec_first_local_config(shared: DSCVRConfigView) -> DSCVRConfigView {
    spec_local_config(
        DSCVRConfigView {
            canisters: spec_copied_canisters(shared.canisters, Some("local"@)),
            controller_groups: shared.controller_groups,
        },
    )
}

impl DSCVRConfig {
    /// Helper method to persist this config to file.
    ///
    /// When persisting for `local` network(s) we strip out
    /// any instances from other networks.  Since `dscvr.local.json`
    /// is not checked in, we want to make sure we don't corrupt that
    /// file with stale canister data.
    ///
    /// When persisting to any network other than local, we strip out
    /// local canister instances (since it may cause conflicts between
    /// developers on check-in).
    pub fn write_config(&self, network: &str, files: &mut ConfigFiles) -> (r: Result<
        Self,
        ConfigError,
    >)
        ensures
            r is Ok,
            network@ == "local"@ ==> r->Ok_0@ == spec_local_config(self@) && spec_config(
                final(files).dscvr_local,
            ) == Some(spec_local_config(self@)) && final(files).dscvr == old(files).dscvr,
            network@ != "local"@ ==> r->Ok_0@ == spec_default_config(self@) && spec_config(
                final(files).dscvr,
            ) == Some(spec_default_config(self@)) && final(files).dscvr_local == old(files).dscvr_local,
            final(files).dfx == old(files).dfx,
            final(files).canister_ids == old(files).canister_ids,
            final(files).network_canister_ids == old(files).network_canister_ids,
    {
        if str_equal(network, "local") {
            let config_to_write = self.generate_local_config();
            files.dscvr_local = Some(config_to_write.clone());
            Ok(config_to_write)
        } else {
            let config_to_write = self.generate_default_config();
            files.dscvr = Some(config_to_write.clone());
            Ok(config_to_write)
        }
    }

    /// Checks if `./dscvr.local.json` exists.  If the file
    /// does not already exist, it will be created from the
    /// current configuration.
    pub fn get_or_generate_local(files: &mut ConfigFiles) -> (r: Result<DSCVRConfig, ConfigError>)
        ensures
            old(files).dscvr_local is Some ==> r is Ok && r->Ok_0@ == old(files).dscvr_local->Some_0@ && *final(files) == *old(files),
            old(files).dscvr_local is None && old(files).dscvr is None ==> r is Err && r->Err_0
                is MissingFile && r->Err_0->MissingFile_0@ == "./dscvr.json"@ && *final(files)
                == *old(files),
            old(files).dscvr_local is None && old(files).dscvr is Some ==> r is Ok && r->Ok_0@
                == spec_first_local_config(old(files).dscvr->Some_0@) && spec_config(
                final(files).dscvr_local,
            ) == Some(r->Ok_0@) && final(files).dscvr == old(files).dscvr,
            final(files).dfx == old(files).dfx,
            final(files).canister_ids == old(files).canister_ids,
            final(files).network_canister_ids == old(files).network_canister_ids,
    {
        match &files.dscvr_local {
            Some(local) => Ok(local.clone()),
            None => {
                let mut config = match &files.dscvr {
                    Some(shared) => shared.clone(),
                    None => {
                        return Err(ConfigError::MissingFile(String::from_str("./dscvr.json")));
                    },
                };
                config.copy_production_instances_to_network(Some("local"));
                config.write_config("local", files)
            },
        }
    }

    /// Try to generate config from file for a specified network.
    ///
    /// If the network is `local`, it will use `dscvr.local.json`.
    ///
    /// All other networks use `dscvr.json`.
    pub fn try_new(network: &str, files: &mut ConfigFiles) -> (r: Result<Self, ConfigError>)
        ensures
            network@ != "local"@ ==> *final(files) == *old(files) && match old(files).dscvr {
                Some(shared) => r is Ok && r->Ok_0@ == shared@,
                None => r is Err && r->Err_0 is MissingFile && r->Err_0->MissingFile_0@
                    == "./dscvr.json"@,
            },
            network@ == "local"@ ==> match (old(files).dscvr_local, old(files).dscvr) {
                (Some(local), _) => r is Ok && r->Ok_0@ == local@ && *final(files) == *old(files),
                (None, Some(shared)) => r is Ok && r->Ok_0@ == spec_first_local_config(shared@)
                    && spec_config(final(files).dscvr_local) == Some(r->Ok_0@),
                (None, None) => r is Err && r->Err_0 is MissingFile && *final(files) == *old(files),
            },
            final(files).dscvr == old(files).dscvr,
            final(files).dfx == old(files).dfx,
            final(files).canister_ids == old(files).canister_ids,
            final(files).network_canister_ids == old(files).network_canister_ids,
    {
        if str_equal(network, "local") {
            Self::get_or_generate_local(files)
        } else {
            match &files.dscvr {
                Some(shared) => Ok(shared.clone()),
                None => Err(ConfigError::MissingFile(String::from_str("./dscvr.json"))),
            }
        }
    }

    /// Merge the local configuration, which is made first where it is not there, into
    /// `base_config`.
    pub fn merge_local(base_config: &mut Self, files: &mut ConfigFiles) -> (r: Result<
        (),
        ConfigError,
    >)
        ensures
            old(files).dscvr_local is None && old(files).dscvr is None ==> r is Err && final(base_config)@ == old(base_config)@,
            old(files).dscvr_local is Some ==> r is Ok && final(base_config)@.canisters
                == spec_merged_canisters(
                old(base_config)@.canisters,
                old(files).dscvr_local->Some_0@.canisters,
            ),
            old(files).dscvr_local is None && old(files).dscvr is Some ==> r is Ok && final(base_config)@.canisters == spec_merged_canisters(
                old(base_config)@.canisters,
                spec_first_local_config(old(files).dscvr->Some_0@).canisters,
            ),
            final(base_config)@.controller_groups == old(base_config)@.controller_groups,
            old(files).dscvr_local is Some || old(files).dscvr is None ==> *final(files) == *old(files),
            old(files).dscvr_local is None && old(files).dscvr is Some ==> spec_config(
                final(files).dscvr_local,
            ) == Some(spec_first_local_config(old(files).dscvr->Some_0@)),
            final(files).dscvr == old(files).dscvr,
            final(files).dfx == old(files).dfx,
            final(files).canister_ids == old(files).canister_ids,
            final(files).network_canister_ids == old(files).network_canister_ids,
    {
        let local_config = match Self::get_or_generate_local(files) {
            Ok(local_config) => local_config,
            Err(e) => {
                return Err(e);
            },
        };
        base_config.merge(&local_config);
        Ok(())
    }
}

/// The path that a text names.
///
/// Calls `Path::new`. How a path is held depends on the platform, so nothing is claimed of
/// it.
#[verifier::external_body]
fn path_new(text: &str) -> &std::path::Path {
    std::path::Path::new(text)
}

impl DfxConfig {
    /// Create a configuration from the default JSON file
    pub fn new_from_default_file(files: &ConfigFiles) -> (r: Result<Self, ConfigError>)
        ensures
            files.dfx is None ==> r is Err && r->Err_0 is MissingFile && r->Err_0->MissingFile_0@
                == "dfx.json"@,
            files.dfx is Some ==> r is Ok && r->Ok_0@.networks
                == crate::string_map::spec_view_insert(
                crate::schema::dfx::spec_named_networks(files.dfx->Some_0@.networks),
                "local"@,
                crate::schema::dfx::spec_local_dfx_network(),
            ) && r->Ok_0@.dfx == files.dfx->Some_0@.dfx && r->Ok_0@.canister_setup_order
                == files.dfx->Some_0@.canister_setup_order,
            files.dfx is Some ==> exists|joined: Seq<(Seq<char>, crate::schema::dfx::DfxCanisterView)>|
                crate::schema::dfx::spec_all_joined(
                    crate::schema::dfx::spec_named_canisters(files.dfx->Some_0@.canisters),
                    joined,
                ) && r->Ok_0@.canisters == #[trigger] crate::schema::dfx::spec_init_ids(
                    joined,
                    crate::schema::dfx::spec_names(r->Ok_0@.networks),
                    spec_ids(files.canister_ids),
                    files.network_canister_ids@,
                ),
    {
        match &files.dfx {
            Some(config) => Ok(
                DfxConfig::new_from_file(
                    config.clone(),
                    // `dfx.json` lies in the current directory
                    path_new(""),
                    &files.canister_ids,
                    &files.network_canister_ids,
                ),
            ),
            None => Err(ConfigError::MissingFile(String::from_str("dfx.json"))),
        }
    }
}

/// The dfx configuration that is made of a configuration for a network.
pub fn generate_dfx_json(dscvr_cfg: DSCVRConfig, network: &str) -> (r: Result<
    DfxConfig,
    ConfigError,
>)
    ensures
        r is Ok <==> crate::schema::dfx::spec_config_resolves(dscvr_cfg@),
        r is Ok ==> r->Ok_0@ == spec_dfx_config(dscvr_cfg@, network@),
        r is Err ==> r->Err_0 is Dfx,
{
    match DfxConfig::try_from_dscvr_for_network(dscvr_cfg, network) {
        Ok(dfx) => Ok(dfx),
        Err(e) => Err(ConfigError::Dfx(e)),
    }
}

/// The ids of the instances of the canisters of a configuration.
pub fn generate_canister_ids_json(dscvr_cfg: DSCVRConfig) -> (r: Result<CanisterIds, ConfigError>)
    ensures
        r is Ok,
        r->Ok_0@ == spec_canister_ids(dscvr_cfg@.canisters),
{
    Ok(CanisterIds::from(dscvr_cfg))
}

/// The configuration of production with the local configuration merged in.
///
/// This also makes a new `dscvr.local.json` if it doesn't already exist.
pub fn generate_config_from_production(files: &mut ConfigFiles) -> (r: Result<
    DSCVRConfig,
    ConfigError,
>)
    ensures
        old(files).dscvr is None ==> r is Err && r->Err_0 is MissingFile,
        old(files).dscvr is Some ==> r is Ok && r->Ok_0@.controller_groups == old(files).dscvr->Some_0@.controller_groups && r->Ok_0@.canisters == spec_merged_canisters(
            old(files).dscvr->Some_0@.canisters,
            match old(files).dscvr_local {
                Some(local) => local@.canisters,
                None => spec_first_local_config(old(files).dscvr->Some_0@).canisters,
            },
        ),
        final(files).dscvr == old(files).dscvr,
{
    let mut dscvr_cfg = match DSCVRConfig::try_new("ic", files) {
        Ok(config) => config,
        Err(e) => {
            return Err(e);
        },
    };
    proof {
        reveal_strlit("ic");
        reveal_strlit("local");
        assert("ic"@ != "local"@) by {
            assert("ic"@.len() == 2);
            assert("local"@.len() == 5);
        }
    }
    match DSCVRConfig::merge_local(&mut dscvr_cfg, files) {
        Ok(()) => Ok(dscvr_cfg),
        Err(e) => Err(e),
    }
}

/// Write `dfx.json` and `canister_ids.json` as they are made of a configuration for a
/// network. Where no dfx configuration can be made, nothing is written.
pub fn generate_dfx_config_for_network(
    dscvr_cfg: &DSCVRConfig,
    network: &str,
    files: &mut ConfigFiles,
) -> (r: Result<(), ConfigError>)
    ensures
        r is Ok <==> crate::schema::dfx::spec_config_resolves(dscvr_cfg@),
        r is Ok ==> spec_dfx(final(files).dfx) == Some(spec_dfx_config(dscvr_cfg@, network@))
            && spec_ids(final(files).canister_ids) == Some(
            spec_canister_ids(dscvr_cfg@.canisters),
        ),
        r is Err ==> r->Err_0 is Dfx && *final(files) == *old(files),
        final(files).dscvr == old(files).dscvr,
        final(files).dscvr_local == old(files).dscvr_local,
        final(files).network_canister_ids == old(files).network_canister_ids,
{
    let dfx = match generate_dfx_json(dscvr_cfg.clone(), network) {
        Ok(dfx) => dfx,
        Err(e) => {
            return Err(e);
        },
    };
    files.dfx = Some(dfx);
    match generate_canister_ids_json(dscvr_cfg.clone()) {
        Ok(ids) => {
            files.canister_ids = Some(ids);
            Ok(())
        },
        Err(e) => Err(e),
    }
}

/// The configuration that is worked on for a network: the local one, which is made first
/// where it is not there, for the local network, and the shared one for every other.
pub open spec fn spec_loaded_config(
    shared: Option<DSCVRConfig>,
    local: Option<DSCVRConfig>,
    network: Seq<char>,
) -> Option<DSCVRConfigView> {
    if network == "local"@ {
        match (local, shared) {
            (Some(local), _) => Some(local@),
            (None, Some(shared)) => Some(spec_first_local_config(shared@)),
            (None, None) => None,
        }
    } else {
        spec_config(shared)
    }
}

/// The configuration as the file for a network keeps it.
pub open spec fn spec_written_config(config: DSCVRConfigView, network: Seq<char>) -> DSCVRConfigView {
    if network == "local"@ {
        spec_local_config(config)
    } else {
        spec_default_config(config)
    }
}

/// What the file of the configuration for a network holds.
pub open spec fn spec_config_file(files: ConfigFiles, network: Seq<char>) -> Option<DSCVRConfigView> {
    if network == "local"@ {
        spec_config(files.dscvr_local)
    } else {
        spec_config(files.dscvr)
    }
}

/// Marks new instances of a canister as available in the `dscvr.json` file,
/// and copies those new canister names into `dfx.json`.  The dfx cli can
/// then create new instances and assign ids.
///
/// The configuration is written before the dfx configuration is made of it: where none can
/// be made, the new instances are in the configuration file all the same.
pub fn allocate_canisters(canister: &str, network: &str, count: usize, files: &mut ConfigFiles) -> (r:
    Result<Vec<CanisterInstance>, ConfigError>)
    ensures
        match spec_loaded_config(old(files).dscvr, old(files).dscvr_local, network@) {
            None => r is Err && r->Err_0 is MissingFile,
            Some(loaded) => if !crate::schema::dscvr::spec_view_has_network(
                loaded,
                canister@,
                network@,
            ) {
                r is Err && r->Err_0 is Dscvr
            } else {
                let before = crate::schema::dscvr::spec_view_network(loaded, canister@, network@);
                let next = crate::schema::dscvr::allocate::spec_next_number(before);
                let added = crate::schema::dscvr::allocate::spec_new_instances(
                    canister@,
                    next,
                    count as nat,
                );
                let changed = crate::schema::dscvr::spec_view_with_network(
                    loaded,
                    canister@,
                    network@,
                    crate::schema::dscvr::allocate::spec_with_available(
                        before,
                        Some(
                            crate::schema::dscvr::allocate::spec_or_empty(
                                before.available_instances,
                            ) + added,
                        ),
                    ),
                );
                if next + count > usize::MAX {
                    r is Err && r->Err_0 is Dscvr
                } else {
                    &&& spec_config_file(*final(files), network@) == Some(
                        spec_written_config(changed, network@),
                    )
                    &&& if crate::schema::dfx::spec_config_resolves(changed) {
                        &&& r is Ok
                        &&& spec_instances(r->Ok_0@) == added
                        &&& spec_dfx(final(files).dfx) == Some(spec_dfx_config(changed, network@))
                    } else {
                        r is Err && r->Err_0 is Dfx && final(files).dfx == old(files).dfx
                    }
                }
            },
        },
        final(files).canister_ids == old(files).canister_ids,
        final(files).network_canister_ids == old(files).network_canister_ids,
{
    let mut dscvr_cfg = match DSCVRConfig::try_new(network, files) {
        Ok(config) => config,
        Err(e) => {
            return Err(e);
        },
    };
    let available_canisters = match dscvr_cfg.add_available_canisters(canister, network, count) {
        Ok(instances) => instances,
        Err(e) => {
            return Err(ConfigError::Dscvr(e));
        },
    };
    match dscvr_cfg.write_config(network, files) {
        Ok(_) => {},
        Err(e) => {
            return Err(e);
        },
    }
    match generate_dfx_json(dscvr_cfg, network) {
        Ok(dfx) => {
            files.dfx = Some(dfx);
            Ok(available_canisters)
        },
        Err(e) => Err(e),
    }
}

/// For each canister that the ids name, an instance of its name with the id that it has on
/// the network, if it has one.
pub open spec fn spec_id_instances(
    ids: Seq<(Seq<char>, Seq<(Seq<char>, Seq<char>)>)>,
    network: Seq<char>,
) -> Seq<CanisterInstanceView> {
    ids.map_values(
        |entry: (Seq<char>, Seq<(Seq<char>, Seq<char>)>)|
            CanisterInstanceView { name: entry.0, id: spec_view_get(entry.1, network) },
    )
}

/// For each canister that the ids name, an instance of its name with the id that it has on
/// the network, if it has one.
pub fn id_instances(ids: &CanisterIds, network: &str) -> (r: Vec<CanisterInstance>)
    ensures
        spec_instances(r@) == spec_id_instances(ids@, network@),
{
    let mut canisters: Vec<CanisterInstance> = Vec::new();
    let mut i: usize = 0;
    while i < ids.ids.len()
        invariant
            i <= ids@.len(),
            canisters@.len() == i,
            forall|k: int|
                0 <= k < i ==> (#[trigger] canisters@[k])@ == spec_id_instances(ids@, network@)[k],
        decreases ids@.len() - i,
    {
        let name = ids.ids.key_at(i);
        let canister_map = ids.ids.value_at(i);
        assert(ids@[i as int] == (name@, canister_map@));
        let id = match canister_map.get_value(network) {
            Some(id) => Some(id.clone()),
            None => None,
        };
        canisters.push(CanisterInstance { name: name.clone(), id });
        i = i + 1;
    }
    assert(spec_instances(canisters@) =~= spec_id_instances(ids@, network@));
    canisters
}

/// The ids that are read for a network: those of the local network for the local network,
/// and the shared ones for every other.
pub open spec fn spec_ids_for(files: ConfigFiles, network: Seq<char>) -> Option<
    Seq<(Seq<char>, Seq<(Seq<char>, Seq<char>)>)>,
> {
    if network == "local"@ {
        spec_view_get(files.network_canister_ids@, "local"@)
    } else {
        spec_ids(files.canister_ids)
    }
}

/// Reads `canister_ids.json` for the specified `canister, network` pair
/// and updates all instance ids in `dscvr.json` to match.
///
/// This should be called after `dfx canister create` has been issued on
/// `CanisterInstances` returned by `allocate_canisters`
pub fn augment_canister_ids(canister: &str, network: &str, files: &mut ConfigFiles) -> (r: Result<
    (),
    ConfigError,
>)
    ensures
        match (
            spec_loaded_config(old(files).dscvr, old(files).dscvr_local, network@),
            spec_ids_for(*old(files), network@),
        ) {
            (None, _) => r is Err && r->Err_0 is MissingFile,
            (Some(_), None) => r is Err && r->Err_0 is MissingFile,
            (Some(loaded), Some(ids)) => if !crate::schema::dscvr::spec_view_has_network(
                loaded,
                canister@,
                network@,
            ) {
                r is Err && r->Err_0 is Dscvr
            } else {
                let before = crate::schema::dscvr::spec_view_network(loaded, canister@, network@);
                match before.available_instances {
                    Some(available) => r is Ok && spec_config_file(*final(files), network@)
                        == Some(
                        spec_written_config(
                            crate::schema::dscvr::spec_view_with_network(
                                loaded,
                                canister@,
                                network@,
                                crate::schema::dscvr::allocate::spec_with_available(
                                    before,
                                    Some(
                                        crate::schema::dscvr::allocate::spec_register(
                                            available,
                                            spec_id_instances(ids, network@),
                                        ),
                                    ),
                                ),
                            ),
                            network@,
                        ),
                    ),
                    None => r is Err && r->Err_0 is Dscvr,
                }
            },
        },
        final(files).dfx == old(files).dfx,
        final(files).canister_ids == old(files).canister_ids,
        final(files).network_canister_ids == old(files).network_canister_ids,
{
    let local = str_equal(network, "local");
    let mut dscvr_cfg = match DSCVRConfig::try_new(network, files) {
        Ok(config) => config,
        Err(e) => {
            return Err(e);
        },
    };
    let canister_ids = if local {
        match files.network_canister_ids.get_value("local") {
            Some(ids) => ids,
            None => {
                return Err(
                    ConfigError::MissingFile(String::from_str("./.dfx/local/canister_ids.json")),
                );
            },
        }
    } else {
        match &files.canister_ids {
            Some(ids) => ids,
            None => {
                return Err(ConfigError::MissingFile(String::from_str("./canister_ids.json")));
            },
        }
    };
    let canisters = id_instances(canister_ids, network);
    match dscvr_cfg.register_available_canisters(canister, network, canisters) {
        Ok(()) => {},
        Err(e) => {
            return Err(ConfigError::Dscvr(e));
        },
    }
    match dscvr_cfg.write_config(network, files) {
        Ok(_) => Ok(()),
        Err(e) => Err(e),
    }
}

/// Gets a set of available_instances to provision for a specific
/// canister and network.  Instances will be updated for the specified
/// network and canister.
pub fn provision_canisters(
    config: &mut DSCVRConfig,
    canister: &str,
    network: &str,
    count: usize,
) -> (r: Result<Vec<CanisterInstance>, ConfigError>)
    ensures
        r is Err ==> r->Err_0 is Dscvr,
        !crate::schema::dscvr::spec_view_has_network(old(config)@, canister@, network@) ==> r
            is Err && r->Err_0->Dscvr_0 is MissingElement && final(config)@ == old(config)@,
        crate::schema::dscvr::spec_view_has_network(old(config)@, canister@, network@) ==> {
            let before = crate::schema::dscvr::spec_view_network(old(config)@, canister@, network@);
            match before.available_instances {
                Some(available) => if count <= available.len() {
                    let taken = crate::schema::dscvr::provision::spec_taken_from_end(
                        available,
                        count as nat,
                    );
                    &&& r is Ok
                    &&& spec_instances(r->Ok_0@) == taken
                    &&& final(config)@ == crate::schema::dscvr::spec_view_with_network(
                        old(config)@,
                        canister@,
                        network@,
                        crate::schema::dscvr::provision::spec_provisioned(
                            before,
                            available.take(available.len() - count),
                            taken,
                        ),
                    )
                } else {
                    &&& r is Err
                    &&& r->Err_0->Dscvr_0 is ProvisionError
                    &&& r->Err_0->Dscvr_0->ProvisionError_0@
                        == "Not enough available canisters to provision"@
                    &&& final(config)@ == crate::schema::dscvr::spec_view_with_network(
                        old(config)@,
                        canister@,
                        network@,
                        crate::schema::dscvr::allocate::spec_with_available(
                            before,
                            Some(Seq::empty()),
                        ),
                    )
                },
                None => {
                    &&& r is Err
                    &&& r->Err_0->Dscvr_0 is NoAvailableCanisterInstances
                    &&& r->Err_0->Dscvr_0->NoAvailableCanisterInstances_0@ == canister@
                    &&& r->Err_0->Dscvr_0->NoAvailableCanisterInstances_1@ == network@
                    &&& r->Err_0->Dscvr_0->NoAvailableCanisterInstances_2@ == "Provision"@
                    &&& final(config)@ == old(config)@
                },
            }
        },
{
    match config.provision_canisters(canister, network, count) {
        Ok(instances) => Ok(instances),
        Err(e) => Err(ConfigError::Dscvr(e)),
    }
}

/// Commit a config object to file for a specific network.
/// Use after a successful provisioning.
pub fn commit_config(config: &DSCVRConfig, network: &str, files: &mut ConfigFiles) -> (r: Result<
    (),
    ConfigError,
>)
    ensures
        r is Ok,
        network@ == "local"@ ==> spec_config(final(files).dscvr_local) == Some(
            spec_local_config(config@),
        ) && final(files).dscvr == old(files).dscvr,
        network@ != "local"@ ==> spec_config(final(files).dscvr) == Some(
            spec_default_config(config@),
        ) && final(files).dscvr_local == old(files).dscvr_local,
        final(files).dfx == old(files).dfx,
        final(files).canister_ids == old(files).canister_ids,
        final(files).network_canister_ids == old(files).network_canister_ids,
{
    match config.write_config(network, files) {
        Ok(_) => Ok(()),
        Err(e) => Err(e),
    }
}

impl ConfigError {
    /// The text of this error.
    pub open spec fn spec_to_string(self) -> Seq<char> {
        match self {
            ConfigError::MissingFile(path) => "No such file: "@ + path@,
            ConfigError::Dscvr(e) => e.spec_to_string(),
            ConfigError::Dfx(e) => e.spec_to_string(),
        }
    }

    /// The text of this error.
    pub fn to_string(&self) -> (text: String)
        ensures
            text@ == self.spec_to_string(),
    {
        match self {
            ConfigError::MissingFile(path) => {
                let mut text = String::from_str("No such file: ");
                text.append(path.as_str());
                text
            },
            ConfigError::Dscvr(e) => e.to_string(),
            ConfigError::Dfx(e) => e.to_string(),
        }
    }
}

} // verus!
