use ic_canister_stable_storage::canister_agent::{
    controller_identity, get_url, locate_canister, AgentConfigError,
};
use ic_canister_stable_storage::canister_init_arguments::ControllerType;
use ic_canister_stable_storage::ic_identity_util::IdentityFromFile;
use ic_canister_stable_storage::schema::dfx::{
    CanisterIds, ControllerIdentityMap, DfxCanister, DfxConfig, DfxGenerationError, DfxNetwork,
};
use ic_canister_stable_storage::schema::dscvr::{
    Canister, CanisterInstance, CanisterNetwork, ControllerGroup, ControllerLookupError,
    DSCVRConfig, DSCVRGenerationError, LOCAL_NETWORK_NAME, NAME_DELIMITER, PRODUCTION_NETWORK_NAME,
};
use ic_canister_stable_storage::schema::{
    allocate_canisters, augment_canister_ids, commit_config, generate_canister_ids_json,
    generate_config_from_production, generate_dfx_config_for_network, generate_dfx_json,
    provision_canisters, ConfigError, ConfigFiles,
};
use ic_canister_stable_storage::string_map::StringMap;

const LOCAL_PROVIDER: &str = "http://localhost:8000";
const IC_PROVIDER: &str = "https://ic0.app";
const STAGING_PROVIDER: &str = "https://replica1.stg.dscvr.cloud";

fn instance(name: &str, id: Option<&str>) -> CanisterInstance {
    CanisterInstance { name: name.to_string(), id: id.map(|id| id.to_string()) }
}

fn network(
    provider: &str,
    controllers: Option<&str>,
    provisioned: Option<Vec<CanisterInstance>>,
    available: Option<Vec<CanisterInstance>>,
    wallet: Option<&str>,
) -> CanisterNetwork {
    CanisterNetwork {
        provider: provider.to_string(),
        controllers: controllers.map(|c| c.to_string()),
        provisioned_instances: provisioned,
        available_instances: available,
        wallet: wallet.map(|w| w.to_string()),
    }
}

fn group(entries: &[(ControllerType, &str)]) -> ControllerGroup {
    let mut controllers = ControllerIdentityMap::new();
    for (controller_type, path) in entries {
        controllers.insert(*controller_type, IdentityFromFile::from_str(path).unwrap());
    }
    ControllerGroup { controllers }
}

fn society_rs() -> Canister {
    let mut networks = StringMap::new();
    networks.insert(
        "ic".to_string(),
        network(
            IC_PROVIDER,
            Some("prod"),
            Some(vec![instance("society_rs", Some("h2bch-3yaaa-aaaab-qaama-cai"))]),
            None,
            Some("g6mnv-cyaaa-aaaab-qaaka-cai"),
        ),
    );
    networks.insert(
        "staging".to_string(),
        network(
            STAGING_PROVIDER,
            Some("staging"),
            Some(vec![instance("society_rs", Some("rrkah-fqaaa-aaaaa-aaaaq-cai"))]),
            None,
            None,
        ),
    );
    networks.insert("local".to_string(), network(LOCAL_PROVIDER, Some("local"), None, None, None));
    Canister {
        networks,
        candid: "crates/canisters/society_rs/society.did".to_string(),
        wasm: "./export/wasms/society_rs.wasm.gz".to_string(),
        build: "./build-scripts/dscvr-cli.sh build society_rs".to_string(),
        supports_init_params: Some(true),
        supports_stable_storage_backup_restore: Some(true),
    }
}

fn event_router() -> Canister {
    let mut networks = StringMap::new();
    networks.insert(
        "ic".to_string(),
        network(
            IC_PROVIDER,
            Some("prod"),
            Some(vec![instance("dscvr-event-router", Some("ccmhu-fqaaa-aaaab-qahoa-cai"))]),
            None,
            Some("g6mnv-cyaaa-aaaab-qaaka-cai"),
        ),
    );
    networks.insert(
        "staging".to_string(),
        network(
            STAGING_PROVIDER,
            Some("staging"),
            Some(vec![instance("dscvr-event-router", Some("ryjl3-tyaaa-aaaaa-aaaba-cai"))]),
            None,
            None,
        ),
    );
    networks.insert("local".to_string(), network(LOCAL_PROVIDER, Some("local"), None, None, None));
    Canister {
        networks,
        candid: "crates/canisters/dscvr-event-router/dscvr-event-router.did".to_string(),
        wasm: "./export/wasms/dscvr-event-router.wasm.gz".to_string(),
        build: "./build-scripts/dscvr-cli.sh build dscvr-event-router".to_string(),
        supports_init_params: Some(true),
        supports_stable_storage_backup_restore: None,
    }
}

fn config() -> DSCVRConfig {
    let mut controller_groups = StringMap::new();
    controller_groups.insert(
        "prod".to_string(),
        group(&[
            (ControllerType::Backup, "./keys/ic-service-account-backup.pem"),
            (ControllerType::TxLogConsumer, "./keys/prod-tx-log-consumer.pem"),
        ]),
    );
    controller_groups.insert(
        "staging".to_string(),
        group(&[
            (ControllerType::Backup, "./keys/staging-backup.pem"),
            (ControllerType::Restore, "./keys/staging-restore.pem"),
            (ControllerType::Owner, "./keys/staging-create.pem"),
            (ControllerType::TxLogConsumer, "./keys/staging-tx-log-consumer.pem"),
        ]),
    );
    controller_groups.insert(
        "local".to_string(),
        group(&[
            (ControllerType::Backup, "./keys/service-account-backup.pem"),
            (ControllerType::Restore, "./keys/service-account-restore.pem"),
            (ControllerType::TxLogConsumer, "./keys/service-account-tx-log-consumer.pem"),
            (ControllerType::Owner, "./keys/local-default.pem"),
        ]),
    );
    let mut canisters = StringMap::new();
    canisters.insert("society_rs".to_string(), society_rs());
    canisters.insert("dscvr-event-router".to_string(), event_router());
    DSCVRConfig { canisters, controller_groups: Some(controller_groups) }
}

fn names(instances: &[CanisterInstance]) -> Vec<(String, Option<String>)> {
    instances.iter().map(|i| (i.name.clone(), i.id.clone())).collect()
}

fn keys<V>(map: &StringMap<V>) -> Vec<String> {
    (0..map.len()).map(|i| map.key_at(i).clone()).collect()
}

fn same<T: std::fmt::Debug>(a: &T, b: &T) -> bool {
    format!("{a:?}") == format!("{b:?}")
}

fn path(identity: &IdentityFromFile) -> String {
    identity.path().to_str().unwrap().to_string()
}

#[test]
fn the_text_of_a_registration_error() {
    assert_eq!(
        DSCVRGenerationError::CanisterRegistrationError("society_rs:2".to_string()).to_string(),
        "Error registering available canister.  Cannot find match for society_rs:2"
    );
    assert_eq!(
        ConfigError::Dscvr(DSCVRGenerationError::ProvisionError("p".to_string())).to_string(),
        "p"
    );
}

#[test]
fn the_names_of_the_networks() {
    assert_eq!(LOCAL_NETWORK_NAME, "local");
    assert_eq!(PRODUCTION_NETWORK_NAME, "ic");
    assert_eq!(NAME_DELIMITER, ":");
}

#[test]
fn a_map_keeps_the_order_of_its_names() {
    let mut map: StringMap<u8> = StringMap::new();
    assert_eq!(map.insert("b".to_string(), 1), None);
    assert_eq!(map.insert("a".to_string(), 2), None);
    assert_eq!(map.insert("b".to_string(), 3), Some(1));
    assert_eq!(map.len(), 2);
    assert_eq!(keys(&map), vec!["b", "a"]);
    assert_eq!(map.get("b"), Some(&3));
    assert_eq!(map.get_value("a"), Some(&2));
    assert_eq!(map.get("c"), None);
    assert!(map.contains_key("a"));
    assert!(!map.contains_key(""));
    assert_eq!(map.index_of("a"), Some(1));
    assert_eq!(map.index_of("c"), None);
    assert_eq!(*map.value_at(0), 3);
    assert_eq!(map.replace_value_at(0, 9), 3);
    assert_eq!(map.set_value_at(1, 8), 2);
    assert_eq!(map.insert_value("c".to_string(), 7), None);
    assert_eq!(map.insert("c".to_string(), 6), Some(7));
    assert_eq!(map.remove("a"), Some(8));
    assert_eq!(map.remove("a"), None);
    assert_eq!(keys(&map), vec!["b", "c"]);
    assert_eq!(map.remove_at(0), ("b".to_string(), 9));
    map.insert_at(0, "z".to_string(), 1);
    assert_eq!(map.remove_value_at(1), ("c".to_string(), 6));
    assert_eq!(keys(&map), vec!["z"]);
    let doubled = map.clone_with(|v| v * 2);
    assert_eq!(doubled.get("z"), Some(&2));
}

#[test]
fn identities_by_controller_type() {
    let mut map = ControllerIdentityMap::new();
    assert_eq!(map.len(), 0);
    assert!(map.insert(ControllerType::Backup, IdentityFromFile::from_str("a.pem").unwrap()).is_none());
    assert!(map.insert(ControllerType::Owner, IdentityFromFile::from_str("b.pem").unwrap()).is_none());
    let previous = map.insert(ControllerType::Backup, IdentityFromFile::from_str("c.pem").unwrap());
    assert_eq!(path(&previous.unwrap()), "a.pem");
    assert_eq!(map.len(), 2);
    assert_eq!(map.index_of(&ControllerType::Owner), Some(1));
    assert_eq!(path(map.get(&ControllerType::Backup).unwrap()), "c.pem");
    assert!(map.get(&ControllerType::Restore).is_none());
    map.join_parent(std::path::Path::new("/keys"));
    assert_eq!(path(map.get(&ControllerType::Backup).unwrap()), "/keys/c.pem");
    assert_eq!(path(map.clone().get(&ControllerType::Owner).unwrap()), "/keys/b.pem");
    let mut identity = IdentityFromFile::from_str("/abs.pem").unwrap();
    identity.join_parent(std::path::Path::new("/keys"));
    assert_eq!(path(&identity), "/abs.pem");
}

#[test]
fn an_identity_holds_the_path_that_it_was_made_of() {
    let identity = IdentityFromFile::from_str("./keys/local-default.pem").unwrap();
    assert_eq!(identity.to_string(), "./keys/local-default.pem");
    assert_eq!(identity.path(), &std::path::PathBuf::from("./keys/local-default.pem"));
    assert_eq!(IdentityFromFile::from_str("").unwrap().to_string(), "");
    let held = std::path::PathBuf::from("a").join("b.pem");
    let identity = IdentityFromFile::from_path(held.clone());
    assert_eq!(identity.path(), &held);
    assert_eq!(identity.clone().path(), &held);
    assert_eq!(identity.to_string(), held.to_string_lossy());
    let mut joined = IdentityFromFile::from_str("b.pem").unwrap();
    joined.join_parent(std::path::Path::new("a"));
    assert_eq!(joined.path(), &held);
}

#[test]
fn canisters_and_networks_are_found_by_name() {
    let config = config();
    assert_eq!(config.get_canister("society_rs").unwrap().wasm, "./export/wasms/society_rs.wasm.gz");
    assert!(config.get_canister("society").is_none());
    assert_eq!(config.get_canister_network("society_rs", "ic").unwrap().provider, IC_PROVIDER);
    assert!(config.get_canister_network("society_rs", "nowhere").is_none());
    assert!(config.get_canister_network("nothing", "ic").is_none());
    assert_eq!(
        names(&config.get_all_instances("dscvr-event-router", "staging").unwrap()),
        vec![("dscvr-event-router".to_string(), Some("ryjl3-tyaaa-aaaaa-aaaba-cai".to_string()))]
    );
    assert_eq!(names(&config.get_all_instances("society_rs", "local").unwrap()), vec![]);
    assert!(config.get_all_instances("society_rs", "nowhere").is_none());
    assert_eq!(config.get_all_provisioned_instances("society_rs", "ic").unwrap().len(), 1);
    assert!(config.get_all_provisioned_instances("society_rs", "local").is_none());
    assert!(config.get_all_provisioned_instances("nothing", "local").is_none());
}

#[test]
fn controllers_are_found_through_the_group_of_the_network() {
    let config = config();
    assert_eq!(
        path(config.get_controller("society_rs", "ic", ControllerType::Backup).unwrap()),
        "./keys/ic-service-account-backup.pem"
    );
    assert_eq!(
        path(config.get_controller("society_rs", "staging", ControllerType::Owner).unwrap()),
        "./keys/staging-create.pem"
    );
    assert!(config.get_controller("society_rs", "ic", ControllerType::Owner).is_none());
    assert!(config.get_controller("society_rs", "nowhere", ControllerType::Backup).is_none());
    let found = config.get_all_controllers_for_canister_network("society_rs", "local").unwrap();
    assert_eq!(found.controllers.len(), 4);

    let error = config.get_all_controllers_for_canister_network("nothing", "ic").unwrap_err();
    assert!(matches!(error, ControllerLookupError::CanisterNotFound(_)));
    assert_eq!(error.to_string(), "nothing not found");
    let error = config.get_all_controllers_for_canister_network("society_rs", "x").unwrap_err();
    assert_eq!(error.to_string(), "Network x does not exist for canister society_rs");

    let mut changed = config.clone();
    let (at, on) = changed.get_canister_for_network_mut("society_rs", "ic").unwrap();
    let mut other = changed.canisters.value_at(at).networks.value_at(on).clone();
    other.controllers = Some("missing".to_string());
    changed.set_network(at, on, other.clone());
    let error = changed.get_all_controllers_for_canister_network("society_rs", "ic").unwrap_err();
    assert_eq!(error.to_string(), "No ControllerGroup found for society_rs:ic:missing");
    changed.controller_groups = None;
    let error = changed.get_all_controllers_for_canister_network("society_rs", "ic").unwrap_err();
    assert_eq!(error.to_string(), "No controller groups listed in document root");
    other.controllers = None;
    changed.set_network(at, on, other);
    let error = changed.get_all_controllers_for_canister_network("society_rs", "ic").unwrap_err();
    assert_eq!(error.to_string(), "Controllers group not listed on society_rs:ic");
}

#[test]
fn an_instance_is_found_by_name_or_by_id_among_the_provisioned_first() {
    let on = network(
        IC_PROVIDER,
        None,
        Some(vec![instance("a", Some("1")), instance("b", None), instance("c", Some("3"))]),
        Some(vec![instance("c", Some("9")), instance("d", Some("1")), instance("e", Some("5"))]),
        None,
    );
    let name = |n: &str| n.to_string();
    assert_eq!(on.find_instance(Some(&name("c")), None).unwrap().id, Some(name("3")));
    assert_eq!(on.find_instance(Some(&name("d")), None).unwrap().id, Some(name("1")));
    // the name wins over the id
    assert_eq!(on.find_instance(Some(&name("e")), Some(&name("1"))).unwrap().name, "e");
    assert_eq!(on.find_instance(None, Some(&name("1"))).unwrap().name, "a");
    assert_eq!(on.find_instance(None, Some(&name("5"))).unwrap().name, "e");
    // an instance without an id has the empty id
    assert_eq!(on.find_instance(None, Some(&name(""))).unwrap().name, "b");
    assert!(on.find_instance(None, Some(&name("7"))).is_none());
    assert!(on.find_instance(Some(&name("z")), None).is_none());
    assert!(on.find_instance(None, None).is_none());
    assert_eq!(on.search_available(Some(&name("c")), None).unwrap().id, Some(name("9")));
    assert!(on.search_provisioned(Some(&name("d")), None).is_none());
    assert_eq!(on.get_all_instances().len(), 6);
    assert_eq!(on.get_all_instances()[3].id, Some(name("9")));
    assert_eq!(on.get_available_instances().unwrap().len(), 3);
    assert_eq!(on.get_provisioned_instances().unwrap()[1].name, "b");
    let empty = CanisterNetwork::default();
    assert!(empty.find_instance(Some(&name("a")), None).is_none());
    assert!(empty.get_available_instances().is_none());
    assert_eq!(empty.get_all_instances().len(), 0);
    assert_eq!(CanisterInstance::default().name, "");
    assert_eq!(Canister::default().networks.len(), 0);
}

#[test]
fn new_instances_are_numbered_on_from_those_that_are_there() {
    let mut config = config();
    let added = config.add_available_canisters("society_rs", "ic", 2).unwrap();
    assert_eq!(
        names(&added),
        vec![("society_rs:2".to_string(), None), ("society_rs:3".to_string(), None)]
    );
    let added = config.add_available_canisters("society_rs", "ic", 1).unwrap();
    assert_eq!(names(&added), vec![("society_rs:4".to_string(), None)]);
    let on = config.get_canister_network("society_rs", "ic").unwrap();
    assert_eq!(
        names(on.available_instances.as_ref().unwrap()),
        vec![
            ("society_rs:2".to_string(), None),
            ("society_rs:3".to_string(), None),
            ("society_rs:4".to_string(), None)
        ]
    );
    assert_eq!(on.provisioned_instances.as_ref().unwrap().len(), 1);
    assert_eq!(names(&config.add_available_canisters("society_rs", "local", 11).unwrap())[9].0, "society_rs:10");
    assert!(config.add_available_canisters("society_rs", "local", 0).unwrap().is_empty());

    let before = format!("{config:?}");
    let error = config.add_available_canisters("nothing", "ic", 1).unwrap_err();
    assert!(matches!(error, DSCVRGenerationError::MissingElement(_)));
    assert_eq!(error.to_string(), "nothing is missing from the configuration");
    let error = config.add_available_canisters("society_rs", "moon", 1).unwrap_err();
    assert_eq!(error.to_string(), "society_rs.moon  is missing from the configuration");
    assert_eq!(format!("{config:?}"), before);
}

#[test]
fn available_instances_take_the_ids_that_are_registered() {
    let mut config = config();
    config.add_available_canisters("society_rs", "staging", 3).unwrap();
    config
        .register_available_canisters(
            "society_rs",
            "staging",
            vec![
                instance("society_rs:3", Some("id-3")),
                instance("unknown", Some("id-x")),
                instance("society_rs:2", Some("id-2")),
                instance("society_rs:3", Some("id-3b")),
                instance("society_rs:4", None),
            ],
        )
        .unwrap();
    let on = config.get_canister_network("society_rs", "staging").unwrap();
    assert_eq!(
        names(on.available_instances.as_ref().unwrap()),
        vec![
            ("society_rs:2".to_string(), Some("id-2".to_string())),
            ("society_rs:3".to_string(), Some("id-3b".to_string())),
            ("society_rs:4".to_string(), None)
        ]
    );
    let error = config
        .register_available_canisters("society_rs", "local", vec![instance("a", None)])
        .unwrap_err();
    assert!(matches!(error, DSCVRGenerationError::NoAvailableCanisterInstances(_, _, _)));
    assert_eq!(error.to_string(), "Cannot find society_rs.local.available_instances to Register");
    let error = config.register_available_canisters("x", "local", vec![]).unwrap_err();
    assert_eq!(error.to_string(), "x is missing from the configuration");
}

#[test]
fn available_instances_are_provisioned_from_the_end() {
    let mut config = config();
    config.add_available_canisters("society_rs", "ic", 3).unwrap();
    let provisioned = config.provision_canisters("society_rs", "ic", 2).unwrap();
    assert_eq!(
        names(&provisioned),
        vec![("society_rs:4".to_string(), None), ("society_rs:3".to_string(), None)]
    );
    let on = config.get_canister_network("society_rs", "ic").unwrap();
    assert_eq!(names(on.available_instances.as_ref().unwrap()), vec![("society_rs:2".to_string(), None)]);
    assert_eq!(
        names(on.provisioned_instances.as_ref().unwrap())
            .iter()
            .map(|(n, _)| n.clone())
            .collect::<Vec<_>>(),
        vec!["society_rs", "society_rs:4", "society_rs:3"]
    );
    assert!(config.provision_canisters("society_rs", "ic", 0).unwrap().is_empty());

    // a network without a list of provisioned instances stays without one
    config.add_available_canisters("society_rs", "local", 2).unwrap();
    let provisioned = config.provision_canisters("society_rs", "local", 1).unwrap();
    assert_eq!(names(&provisioned), vec![("society_rs:2".to_string(), None)]);
    let on = config.get_canister_network("society_rs", "local").unwrap();
    assert!(on.provisioned_instances.is_none());
    assert_eq!(on.available_instances.as_ref().unwrap().len(), 1);
}

#[test]
fn provisioning_more_than_is_available_fails_and_gives_the_available_up() {
    let mut config = config();
    config.add_available_canisters("society_rs", "ic", 2).unwrap();
    let error = config.provision_canisters("society_rs", "ic", 3).unwrap_err();
    assert!(matches!(error, DSCVRGenerationError::ProvisionError(_)));
    assert_eq!(error.to_string(), "Not enough available canisters to provision");
    let on = config.get_canister_network("society_rs", "ic").unwrap();
    assert_eq!(on.available_instances.as_ref().unwrap().len(), 0);
    assert_eq!(on.provisioned_instances.as_ref().unwrap().len(), 1);

    let error = config.provision_canisters("society_rs", "staging", 1).unwrap_err();
    assert_eq!(error.to_string(), "Cannot find society_rs.staging.available_instances to Provision");
    let error = provision_canisters(&mut config, "society_rs", "staging", 1).unwrap_err();
    assert!(matches!(error, ConfigError::Dscvr(_)));
    assert_eq!(
        error.to_string(),
        "Cannot find society_rs.staging.available_instances to Provision"
    );
    let error = provision_canisters(&mut config, "nothing", "staging", 1).unwrap_err();
    assert_eq!(error.to_string(), "nothing is missing from the configuration");
    config.add_available_canisters("society_rs", "staging", 1).unwrap();
    assert_eq!(provision_canisters(&mut config, "society_rs", "staging", 1).unwrap().len(), 1);
}

#[test]
fn the_local_file_keeps_the_local_network_alone() {
    let mut config = config();
    config.add_available_canisters("society_rs", "local", 1).unwrap();
    let local = config.generate_local_config();
    assert_eq!(keys(&local.canisters), vec!["society_rs", "dscvr-event-router"]);
    for i in 0..local.canisters.len() {
        assert_eq!(keys(&local.canisters.value_at(i).networks), vec!["local"]);
    }
    assert_eq!(
        local.get_canister_network("society_rs", "local").unwrap().available_instances.as_ref().unwrap().len(),
        1
    );
    assert_eq!(local.get_canister("society_rs").unwrap().candid, "crates/canisters/society_rs/society.did");
    assert!(same(&local.controller_groups, &config.controller_groups));
    let mut without = config.clone();
    let mut canister = without.canisters.remove("society_rs").unwrap();
    canister.networks.remove("local");
    without.canisters.insert("society_rs".to_string(), canister);
    assert_eq!(without.generate_local_config().get_canister("society_rs").unwrap().networks.len(), 0);
}

#[test]
fn the_shared_file_keeps_no_local_instances_and_no_canister_that_is_local_only() {
    let mut config = config();
    config.add_available_canisters("society_rs", "local", 1).unwrap();
    config.add_available_canisters("society_rs", "ic", 1).unwrap();
    let mut networks = StringMap::new();
    networks.insert(
        "local".to_string(),
        network(LOCAL_PROVIDER, None, Some(vec![instance("scratch", None)]), None, None),
    );
    let scratch = Canister { networks, ..Canister::default() };
    let mut canisters = StringMap::new();
    canisters.insert("first".to_string(), scratch.clone());
    for i in 0..config.canisters.len() {
        canisters.insert(config.canisters.key_at(i).clone(), config.canisters.value_at(i).clone());
    }
    canisters.insert("last".to_string(), scratch);
    config.canisters = canisters;

    let shared = config.generate_default_config();
    assert_eq!(keys(&shared.canisters), vec!["society_rs", "dscvr-event-router"]);
    let local = shared.get_canister_network("society_rs", "local").unwrap();
    assert!(local.available_instances.is_none());
    assert!(local.provisioned_instances.is_none());
    assert_eq!(local.provider, LOCAL_PROVIDER);
    assert_eq!(local.controllers, Some("local".to_string()));
    let ic = shared.get_canister_network("society_rs", "ic").unwrap();
    assert_eq!(ic.available_instances.as_ref().unwrap().len(), 1);
    assert_eq!(ic.provisioned_instances.as_ref().unwrap().len(), 1);
    assert!(same(&shared.controller_groups, &config.controller_groups));
}

#[test]
fn the_instances_of_production_are_copied() {
    let mut config = config();
    config.add_available_canisters("society_rs", "ic", 2).unwrap();
    let mut to_local = config.clone();
    to_local.copy_production_instances_to_network(Some("local"));
    let local = to_local.get_canister_network("society_rs", "local").unwrap();
    assert_eq!(names(local.provisioned_instances.as_ref().unwrap())[0].0, "society_rs");
    assert_eq!(local.available_instances.as_ref().unwrap().len(), 2);
    assert_eq!(local.provider, LOCAL_PROVIDER);
    let staging = to_local.get_canister_network("society_rs", "staging").unwrap();
    assert_eq!(
        staging.provisioned_instances.as_ref().unwrap()[0].id,
        Some("rrkah-fqaaa-aaaaa-aaaaq-cai".to_string())
    );
    assert!(staging.available_instances.is_none());
    assert!(to_local.get_canister_network("dscvr-event-router", "local").unwrap().available_instances.is_none());

    let mut to_all = config.clone();
    to_all.copy_production_instances_to_network(None);
    let staging = to_all.get_canister_network("society_rs", "staging").unwrap();
    assert_eq!(
        staging.provisioned_instances.as_ref().unwrap()[0].id,
        Some("h2bch-3yaaa-aaaab-qaama-cai".to_string())
    );
    assert_eq!(staging.available_instances.as_ref().unwrap().len(), 2);
    assert!(same(
        to_all.get_canister_network("society_rs", "ic").unwrap(),
        config.get_canister_network("society_rs", "ic").unwrap()
    ));

    // without production there is nothing to copy
    let mut canister = society_rs();
    canister.networks.remove("ic");
    canister.copy_production_instances_to_network(None);
    assert!(canister.networks.get("staging").unwrap().provisioned_instances.is_none());
}

#[test]
fn a_local_configuration_is_merged_into_the_shared_one() {
    let mut base = config();
    let mut local = config().generate_local_config();
    local.add_available_canisters("society_rs", "local", 2).unwrap();
    let mut networks = StringMap::new();
    networks.insert("staging".to_string(), network(STAGING_PROVIDER, None, None, None, None));
    local.canisters.insert("scratch".to_string(), Canister { networks, ..Canister::default() });
    // a canister of the local configuration without a local network changes nothing
    let mut router = local.canisters.remove("dscvr-event-router").unwrap();
    router.networks.remove("local");
    local.canisters.insert("dscvr-event-router".to_string(), router);

    base.merge(&local);
    assert_eq!(keys(&base.canisters), vec!["society_rs", "dscvr-event-router", "scratch"]);
    let merged = base.get_canister("society_rs").unwrap();
    assert_eq!(keys(&merged.networks), vec!["ic", "staging", "local"]);
    assert_eq!(merged.networks.get("local").unwrap().available_instances.as_ref().unwrap().len(), 2);
    assert!(same(
        base.get_canister("dscvr-event-router").unwrap(),
        config().get_canister("dscvr-event-router").unwrap()
    ));
    assert_eq!(keys(&base.get_canister("scratch").unwrap().networks), vec!["staging"]);
}

#[test]
fn the_configuration_of_a_network_comes_from_its_file() {
    let mut files = ConfigFiles::new();
    let error = DSCVRConfig::try_new("ic", &mut files).unwrap_err();
    assert!(matches!(error, ConfigError::MissingFile(_)));
    assert_eq!(error.to_string(), "No such file: ./dscvr.json");
    assert!(matches!(DSCVRConfig::try_new("local", &mut files), Err(ConfigError::MissingFile(_))));
    assert!(files.dscvr_local.is_none());

    files.dscvr = Some(config());
    assert!(same(&DSCVRConfig::try_new("staging", &mut files).unwrap(), &config()));
    assert!(files.dscvr_local.is_none());

    // the local file is first made of the shared one, with the instances of production
    let local = DSCVRConfig::try_new("local", &mut files).unwrap();
    assert!(same(files.dscvr_local.as_ref().unwrap(), &local));
    assert_eq!(keys(&local.canisters), vec!["society_rs", "dscvr-event-router"]);
    assert_eq!(keys(&local.get_canister("society_rs").unwrap().networks), vec!["local"]);
    assert_eq!(
        local.get_all_provisioned_instances("society_rs", "local").unwrap()[0].id,
        Some("h2bch-3yaaa-aaaab-qaama-cai".to_string())
    );
    assert!(local.controller_groups.is_some());

    // and is read from then on
    let mut changed = local.clone();
    changed.add_available_canisters("society_rs", "local", 1).unwrap();
    files.dscvr_local = Some(changed.clone());
    assert!(same(&DSCVRConfig::try_new("local", &mut files).unwrap(), &changed));
    assert!(same(&DSCVRConfig::get_or_generate_local(&mut files).unwrap(), &changed));
}

#[test]
fn production_is_merged_with_the_local_configuration() {
    let mut files = ConfigFiles::new();
    assert!(matches!(generate_config_from_production(&mut files), Err(ConfigError::MissingFile(_))));
    files.dscvr = Some(config());
    let merged = generate_config_from_production(&mut files).unwrap();
    assert!(files.dscvr_local.is_some());
    for name in ["society_rs", "dscvr-event-router"] {
        let local = merged.get_canister_network(name, "local").unwrap();
        assert!(local.provisioned_instances.is_some());
        assert_eq!(merged.get_canister(name).unwrap().networks.len(), 3);
    }
    assert!(same(&merged.controller_groups, &config().controller_groups));
    let mut base = config();
    DSCVRConfig::merge_local(&mut base, &mut files).unwrap();
    assert!(same(&base, &merged));
}

#[test]
fn a_configuration_is_committed_to_the_file_of_its_network() {
    let mut files = ConfigFiles::new();
    let mut config = config();
    config.add_available_canisters("society_rs", "local", 1).unwrap();
    commit_config(&config, "staging", &mut files).unwrap();
    assert!(same(files.dscvr.as_ref().unwrap(), &config.generate_default_config()));
    assert!(files.dscvr_local.is_none());
    commit_config(&config, "local", &mut files).unwrap();
    assert!(same(files.dscvr_local.as_ref().unwrap(), &config.generate_local_config()));
    let written = config.write_config("ic", &mut files).unwrap();
    assert!(same(&written, &config.generate_default_config()));
}

#[test]
fn a_dfx_configuration_is_made_for_a_network() {
    let dfx = DfxConfig::try_from_dscvr_for_network(config(), "ic").unwrap();
    assert_eq!(dfx.dfx, "0.14.1");
    assert!(dfx.canister_setup_order.is_empty());
    assert_eq!(keys(&dfx.canisters), vec!["society_rs", "dscvr-event-router"]);
    assert_eq!(keys(&dfx.networks), vec!["ic", "staging"]);
    let ic = dfx.networks.get("ic").unwrap();
    assert_eq!(ic.name, "ic");
    assert_eq!(ic.providers, Some(vec![IC_PROVIDER.to_string()]));
    assert_eq!(ic.bind, Some(IC_PROVIDER.to_string()));

    let society = dfx.canisters.get("society_rs").unwrap();
    assert_eq!(society.name, "society_rs");
    assert_eq!(society.candid, "crates/canisters/society_rs/society.did");
    assert_eq!(society.wasm, "./export/wasms/society_rs.wasm.gz");
    assert_eq!(society.build, "./build-scripts/dscvr-cli.sh build society_rs");
    assert!(society.supports_init_params);
    assert!(society.supports_stable_storage_backup_restore);
    assert_eq!(society.network_id_map.len(), 0);
    let wallet = society.wallet.as_ref().unwrap();
    assert_eq!(keys(wallet), vec!["ic"]);
    assert_eq!(wallet.get("ic").unwrap(), "g6mnv-cyaaa-aaaab-qaaka-cai");
    assert_eq!(keys(society.controllers.as_ref().unwrap()), vec!["ic", "staging", "local"]);
    assert_eq!(
        path(society.get_controller("staging", &ControllerType::Restore).unwrap()),
        "./keys/staging-restore.pem"
    );
    assert!(society.get_controller("ic", &ControllerType::Restore).is_none());
    assert!(society.get_controller("moon", &ControllerType::Backup).is_none());
    assert_eq!(society.get_all_controllers_for_network("local").unwrap().len(), 4);
    assert!(society.get_all_controllers_for_network("moon").is_none());
    let router = dfx.canisters.get("dscvr-event-router").unwrap();
    assert!(router.supports_init_params);
    assert!(!router.supports_stable_storage_backup_restore);

    // for a network without a wallet and with instances of two kinds
    let mut config = config();
    config.add_available_canisters("society_rs", "staging", 2).unwrap();
    let dfx = generate_dfx_json(config, "staging").unwrap();
    assert_eq!(
        keys(&dfx.canisters),
        vec!["society_rs", "society_rs:2", "society_rs:3", "dscvr-event-router"]
    );
    assert_eq!(dfx.canisters.get("society_rs:3").unwrap().name, "society_rs:3");
    assert_eq!(dfx.canisters.get("society_rs:3").unwrap().wallet.as_ref().unwrap().len(), 0);
    let dfx = DfxConfig::try_from_dscvr_for_network(self::config(), "local").unwrap();
    assert_eq!(dfx.canisters.len(), 0);
    assert_eq!(keys(&dfx.networks), vec!["ic", "staging"]);
}

#[test]
fn a_controller_group_that_is_not_there_is_an_error() {
    let mut config = config();
    config.controller_groups.as_mut().unwrap().remove("staging");
    let error = DfxConfig::try_from_dscvr_for_network(config.clone(), "ic").unwrap_err();
    assert!(matches!(&error, DfxGenerationError::ControllerGroupMismatch(group, canister)
        if group == "staging" && canister == "society_rs"));
    assert_eq!(
        error.to_string(),
        "Controller Group staging Specified for Canister staging not found in DSCVRRoot"
    );
    config.controller_groups = None;
    let error = generate_dfx_json(config.clone(), "ic").unwrap_err();
    assert!(matches!(&error, ConfigError::Dfx(DfxGenerationError::ControllerGroupMissing(canister))
        if canister == "society_rs"));
    assert_eq!(
        error.to_string(),
        "Controller Groups Specified for Canister society_rs but no Controller Groups found in DSCVRRoot"
    );
    let mut files = ConfigFiles::new();
    assert!(generate_dfx_config_for_network(&config, "ic", &mut files).is_err());
    assert!(files.dfx.is_none());
    assert!(files.canister_ids.is_none());
}

#[test]
fn the_ids_of_the_instances() {
    let mut config = config();
    config.add_available_canisters("society_rs", "ic", 2).unwrap();
    config
        .register_available_canisters(
            "society_rs",
            "ic",
            vec![instance("society_rs:3", Some("third")), instance("society_rs:2", None)],
        )
        .unwrap();
    let ids = CanisterIds::from(config.clone());
    assert_eq!(keys(&ids.ids), vec!["society_rs", "society_rs:3", "dscvr-event-router"]);
    let society = ids.ids.get("society_rs").unwrap();
    assert_eq!(keys(society), vec!["ic", "staging"]);
    assert_eq!(society.get("ic").unwrap(), "h2bch-3yaaa-aaaab-qaama-cai");
    assert_eq!(society.get("staging").unwrap(), "rrkah-fqaaa-aaaaa-aaaaq-cai");
    assert_eq!(ids.ids.get("society_rs:3").unwrap().get("ic").unwrap(), "third");
    assert!(same(&generate_canister_ids_json(config.clone()).unwrap(), &ids));
    assert_eq!(CanisterIds::default().ids.len(), 0);

    // the first id of an instance on a network stays
    let mut networks = StringMap::new();
    networks.insert(
        "ic".to_string(),
        network(
            IC_PROVIDER,
            None,
            Some(vec![instance("a", Some("1")), instance("a", Some("2"))]),
            Some(vec![instance("a", Some("3")), instance("b", Some("4"))]),
            None,
        ),
    );
    let mut canisters = StringMap::new();
    canisters.insert("a".to_string(), Canister { networks, ..Canister::default() });
    let ids = CanisterIds::from(DSCVRConfig { canisters, controller_groups: None });
    assert_eq!(ids.ids.get("a").unwrap().get("ic").unwrap(), "1");
    assert_eq!(ids.ids.get("b").unwrap().get("ic").unwrap(), "4");

    let mut files = ConfigFiles::new();
    generate_dfx_config_for_network(&config, "ic", &mut files).unwrap();
    assert_eq!(files.dfx.as_ref().unwrap().canisters.len(), 4);
    assert_eq!(files.canister_ids.as_ref().unwrap().ids.len(), 3);
}

#[test]
fn instances_are_allocated_in_the_files() {
    let mut files = ConfigFiles::new();
    assert!(matches!(
        allocate_canisters("society_rs", "ic", 1, &mut files),
        Err(ConfigError::MissingFile(_))
    ));
    files.dscvr = Some(config());
    let added = allocate_canisters("society_rs", "ic", 2, &mut files).unwrap();
    assert_eq!(names(&added), vec![("society_rs:2".to_string(), None), ("society_rs:3".to_string(), None)]);
    let written = files.dscvr.as_ref().unwrap();
    assert_eq!(written.get_all_instances("society_rs", "ic").unwrap().len(), 3);
    assert_eq!(
        keys(&files.dfx.as_ref().unwrap().canisters),
        vec!["society_rs", "society_rs:2", "society_rs:3", "dscvr-event-router"]
    );
    let error = allocate_canisters("nothing", "ic", 2, &mut files).unwrap_err();
    assert_eq!(error.to_string(), "nothing is missing from the configuration");

    // for the local network the local file is made and written
    let added = allocate_canisters("society_rs", "local", 1, &mut files).unwrap();
    assert_eq!(names(&added), vec![("society_rs:4".to_string(), None)]);
    let local = files.dscvr_local.as_ref().unwrap();
    assert_eq!(local.get_all_instances("society_rs", "local").unwrap().len(), 4);
    assert_eq!(files.dscvr.as_ref().unwrap().get_all_instances("society_rs", "ic").unwrap().len(), 3);
}

#[test]
fn the_ids_that_dfx_gave_are_put_into_the_configuration() {
    let mut files = ConfigFiles::new();
    files.dscvr = Some(config());
    allocate_canisters("society_rs", "staging", 2, &mut files).unwrap();
    assert!(matches!(
        augment_canister_ids("society_rs", "staging", &mut files),
        Err(ConfigError::MissingFile(_))
    ));
    let mut ids = CanisterIds::default();
    let mut by_network = StringMap::new();
    by_network.insert("ic".to_string(), "on-ic".to_string());
    by_network.insert("staging".to_string(), "on-staging".to_string());
    ids.ids.insert("society_rs:2".to_string(), by_network);
    let mut by_network = StringMap::new();
    by_network.insert("ic".to_string(), "other".to_string());
    ids.ids.insert("society_rs:3".to_string(), by_network);
    files.canister_ids = Some(ids);
    augment_canister_ids("society_rs", "staging", &mut files).unwrap();
    let written = files.dscvr.as_ref().unwrap();
    assert_eq!(
        names(&written.get_canister_network("society_rs", "staging").unwrap().get_available_instances().unwrap()),
        vec![
            ("society_rs:2".to_string(), Some("on-staging".to_string())),
            ("society_rs:3".to_string(), None)
        ]
    );
    let error = augment_canister_ids("society_rs", "ic", &mut files).unwrap_err();
    assert_eq!(error.to_string(), "Cannot find society_rs.ic.available_instances to Register");
    // the ids of the local network are read from its own file
    let error = augment_canister_ids("society_rs", "local", &mut files).unwrap_err();
    assert_eq!(error.to_string(), "No such file: ./.dfx/local/canister_ids.json");
}

#[test]
fn a_dfx_configuration_is_read_with_its_names_ids_and_paths() {
    let mut canisters = StringMap::new();
    let mut controllers = StringMap::new();
    controllers.insert("ic".to_string(), group(&[(ControllerType::Backup, "keys/b.pem")]).controllers);
    let mut known = StringMap::new();
    known.insert("ic".to_string(), "kept".to_string());
    canisters.insert(
        "society_rs".to_string(),
        DfxCanister {
            name: String::new(),
            wasm: "w".to_string(),
            candid: "c".to_string(),
            supports_init_params: true,
            supports_stable_storage_backup_restore: false,
            network_id_map: known,
            wallet: None,
            controllers: Some(controllers),
            build: "b".to_string(),
        },
    );
    let mut networks = StringMap::new();
    networks.insert(
        "staging".to_string(),
        DfxNetwork { name: String::new(), providers: Some(vec![STAGING_PROVIDER.to_string()]), bind: None },
    );
    let parsed =
        DfxConfig { canisters, networks, canister_setup_order: vec!["society_rs".to_string()], dfx: "0.14.1".to_string() };

    let ids = |entries: &[(&str, &str, &str)]| {
        let mut ids = CanisterIds::default();
        for (canister, on, id) in entries {
            let mut by_network = ids.ids.remove(canister).unwrap_or_else(StringMap::new);
            by_network.insert(on.to_string(), id.to_string());
            ids.ids.insert(canister.to_string(), by_network);
        }
        ids
    };
    let shared = Some(ids(&[("society_rs", "ic", "shared-ic"), ("society_rs", "staging", "shared-staging"), ("other", "ic", "x")]));
    let mut by_network = StringMap::new();
    by_network.insert("staging".to_string(), ids(&[("society_rs", "staging", "late"), ("society_rs", "moon", "moon-id")]));
    by_network.insert("local".to_string(), ids(&[("society_rs", "local", "local-id")]));
    by_network.insert("unused".to_string(), ids(&[("society_rs", "unused", "never")]));

    let read = DfxConfig::new_from_file(parsed.clone(), std::path::Path::new("/project"), &shared, &by_network);
    assert_eq!(read.dfx, "0.14.1");
    assert_eq!(read.canister_setup_order, vec!["society_rs".to_string()]);
    assert_eq!(keys(&read.networks), vec!["staging", "local"]);
    assert_eq!(read.networks.get("staging").unwrap().name, "staging");
    let local = read.networks.get("local").unwrap();
    assert_eq!(local.name, "local");
    assert_eq!(local.providers, None);
    assert_eq!(local.bind, Some("127.0.0.1:8000".to_string()));
    let society = read.canisters.get("society_rs").unwrap();
    assert_eq!(society.name, "society_rs");
    assert_eq!(society.wasm, "w");
    assert_eq!(path(society.get_controller("ic", &ControllerType::Backup).unwrap()), "/project/keys/b.pem");
    assert_eq!(keys(&society.network_id_map), vec!["ic", "staging", "moon", "local"]);
    assert_eq!(society.network_id_map.get("ic").unwrap(), "kept");
    assert_eq!(society.network_id_map.get("staging").unwrap(), "shared-staging");
    assert_eq!(society.network_id_map.get("moon").unwrap(), "moon-id");
    assert_eq!(society.network_id_map.get("local").unwrap(), "local-id");

    let mut files = ConfigFiles::new();
    let error = DfxConfig::new_from_default_file(&files).unwrap_err();
    assert_eq!(error.to_string(), "No such file: dfx.json");
    files.dfx = Some(parsed);
    files.canister_ids = shared;
    let read = DfxConfig::new_from_default_file(&files).unwrap();
    assert_eq!(keys(&read.networks), vec!["staging", "local"]);
    let society = read.canisters.get("society_rs").unwrap();
    assert_eq!(keys(&society.network_id_map), vec!["ic", "staging"]);
    assert_eq!(path(society.get_controller("ic", &ControllerType::Backup).unwrap()), "keys/b.pem");
}

#[test]
fn an_agent_finds_its_canister_in_the_configuration() {
    let mut config = config();
    config.add_available_canisters("society_rs", "ic", 1).unwrap();
    let location = locate_canister(&config, "society_rs", "society_rs", "ic").unwrap();
    assert_eq!(location.canister_id, "h2bch-3yaaa-aaaab-qaama-cai");
    assert_eq!(location.url, IC_PROVIDER);
    let location = locate_canister(&config, "society_rs", "society_rs", "staging").unwrap();
    assert_eq!(location.canister_id, "rrkah-fqaaa-aaaaa-aaaaq-cai");
    assert_eq!(location.url, STAGING_PROVIDER);
    assert_eq!(
        get_url(config.get_canister_network("society_rs", "local").unwrap()),
        Some(LOCAL_PROVIDER.to_string())
    );

    let error = locate_canister(&config, "society_rs", "society_rs", "moon").unwrap_err();
    assert!(matches!(error, AgentConfigError::NetworkNotFound(_, _)));
    assert_eq!(
        error.to_string(),
        "Could not find canister society_rs in network moon within config file"
    );
    let error = locate_canister(&config, "nothing", "society_rs", "ic").unwrap_err();
    assert_eq!(error.to_string(), "Could not find canister nothing in network ic within config file");
    let error = locate_canister(&config, "society_rs", "society_rs:9", "ic").unwrap_err();
    assert!(matches!(error, AgentConfigError::InstanceNotFound(_)));
    assert_eq!(error.to_string(), "Could not find canister instance society_rs:9 in network config");
    let error = locate_canister(&config, "society_rs", "society_rs:2", "ic").unwrap_err();
    assert!(matches!(error, AgentConfigError::NoCanisterId(_)));
    assert_eq!(error.to_string(), "Found canister society_rs:2 but it has no associated id");

    let identity = controller_identity(&config, "society_rs", "ic", ControllerType::Backup).unwrap();
    assert_eq!(path(identity), "./keys/ic-service-account-backup.pem");
    let error = controller_identity(&config, "society_rs", "ic", ControllerType::Owner).unwrap_err();
    assert_eq!(
        error.to_string(),
        "Controller does not exist for canister society_rs on network ic"
    );
}
