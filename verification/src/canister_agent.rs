//! Finding, in the configuration, what an agent needs to reach a canister.

use crate::canister_init_arguments::ControllerType;
use crate::ic_identity_util::IdentityFromFile;
use crate::schema::dscvr::{spec_found, CanisterInstance, CanisterNetwork, DSCVRConfig};
use vstd::prelude::*;
use vstd::string::StringExecFns;

verus! {

/// Why the configuration does not say how to reach a canister.
#[derive(Debug)]
pub enum AgentConfigError {
    /// The canister does not run on the network: canister, network.
    NetworkNotFound(String, String),
    /// The canister has no instance of this name on the network.
    InstanceNotFound(String),
    /// The instance of this name has no id.
    NoCanisterId(String),
    /// No identity controls the canister on the network as was asked: canister, network.
    ControllerNotFound(String, String),
}

impl AgentConfigError {
    /// The text of this error.
    pub open spec fn spec_to_string(self) -> Seq<char> {
        match self {
            AgentConfigError::NetworkNotFound(canister, network) => "Could not find canister "@
                + canister@ + " in network "@ + network@ + " within config file"@,
            AgentConfigError::InstanceNotFound(instance) => "Could not find canister instance "@
                + instance@ + " in network config"@,
            AgentConfigError::NoCanisterId(instance) => "Found canister "@ + instance@
                + " but it has no associated id"@,
            AgentConfigError::ControllerNotFound(canister, network) =>
                "Controller does not exist for canister "@ + canister@ + " on network "@
                + network@,
        }
    }

    /// The text of this error.
    pub fn to_string(&self) -> (text: String)
        ensures
            text@ == self.spec_to_string(),
    {
        match self {
            AgentConfigError::NetworkNotFound(canister, network) => {
                let mut text = String::from_str("Could not find canister ");
                text.append(canister.as_str());
                text.append(" in network ");
                text.append(network.as_str());
                text.append(" within config file");
                text
            },
            AgentConfigError::InstanceNotFound(instance) => {
                let mut text = String::from_str("Could not find canister instance ");
                text.append(instance.as_str());
                text.append(" in network config");
                text
            },
            AgentConfigError::NoCanisterId(instance) => {
                let mut text = String::from_str("Found canister ");
                text.append(instance.as_str());
                text.append(" but it has no associated id");
                text
            },
            AgentConfigError::ControllerNotFound(canister, network) => {
                let mut text = String::from_str("Controller does not exist for canister ");
                text.append(canister.as_str());
                text.append(" on network ");
                text.append(network.as_str());
                text
            },
        }
    }
}

/// Where a canister is reached: its id, and the URL of the network that it runs on.
#[derive(Debug)]
pub struct CanisterLocation {
    /// The id of the canister
    pub canister_id: String,
    /// The URL of the provider of the network
    pub url: String,
}

/// Return a canister URL based off a network configuration
pub fn get_url(network: &CanisterNetwork) -> (r: Option<String>)
    ensures
        r is Some,
        r->Some_0@ == network.provider@,
{
    Some(network.provider.clone())
}

/// The instance of a network that has the given name: the first provisioned one or, where
/// none has the name, the first available one.
pub open spec fn spec_named_instance(
    network: CanisterNetwork,
    instance_name: Seq<char>,
    found: Option<&CanisterInstance>,
) -> bool {
    spec_found(network.provisioned_instances, Some(instance_name), None, found) && found is Some
        || spec_found(network.provisioned_instances, Some(instance_name), None, None)
        && spec_found(network.available_instances, Some(instance_name), None, found)
}

/// Find where the instance `instance_name` of `canister` on the network `network_name` is
/// reached. What is missing is reported in this order: the canister on the network, the
/// instance, its id.
pub fn locate_canister(
    config: &DSCVRConfig,
    canister: &str,
    instance_name: &str,
    network_name: &str,
) -> (r: Result<CanisterLocation, AgentConfigError>)
    ensures
        config.spec_canister_network(canister@, network_name@) is None ==> r is Err && r->Err_0
            is NetworkNotFound && r->Err_0->NetworkNotFound_0@ == canister@
            && r->Err_0->NetworkNotFound_1@ == network_name@,
        config.spec_canister_network(canister@, network_name@) is Some ==> {
            let network = config.spec_canister_network(canister@, network_name@)->Some_0;
            match r {
                Ok(location) => exists|instance: &CanisterInstance|
                    #![trigger spec_named_instance(network, instance_name@, Some(instance))]
                    spec_named_instance(network, instance_name@, Some(instance)) && instance.id
                        is Some && location.canister_id@ == instance.id->Some_0@ && location.url@
                        == network.provider@,
                Err(AgentConfigError::InstanceNotFound(name)) => spec_named_instance(
                    network,
                    instance_name@,
                    None,
                ) && name@ == instance_name@,
                Err(AgentConfigError::NoCanisterId(name)) => exists|instance: &CanisterInstance|
                    #![trigger spec_named_instance(network, instance_name@, Some(instance))]
                    spec_named_instance(network, instance_name@, Some(instance)) && instance.id
                        is None && name@ == instance.name@,
                Err(_) => false,
            }
        },
{
    let network = match config.get_canister_network(canister, network_name) {
        Some(network) => network,
        None => {
            return Err(
                AgentConfigError::NetworkNotFound(
                    String::from_str(canister),
                    String::from_str(network_name),
                ),
            );
        },
    };
    let name = String::from_str(instance_name);
    let canister_instance = match network.find_instance(Some(&name), None) {
        Some(instance) => instance,
        None => {
            return Err(AgentConfigError::InstanceNotFound(name));
        },
    };
    assert(spec_named_instance(*network, instance_name@, Some(canister_instance)));
    let canister_id = match &canister_instance.id {
        Some(id) => id.clone(),
        None => {
            return Err(AgentConfigError::NoCanisterId(canister_instance.name.clone()));
        },
    };
    let url = network.provider.clone();
    Ok(CanisterLocation { canister_id, url })
}

/// The identity that controls `canister` on `network` as `controller`.
pub fn controller_identity<'a>(
    config: &'a DSCVRConfig,
    canister: &str,
    network: &str,
    controller: ControllerType,
) -> (r: Result<&'a IdentityFromFile, AgentConfigError>)
    ensures
        r is Ok <==> config.spec_controller_group(canister@, network@) is Some
            && config.spec_controller_group(
            canister@,
            network@,
        )->Some_0.controllers.spec_contains_key(controller),
        r is Ok ==> config.spec_controller_group(canister@, network@)->Some_0.controllers.spec_get(
            controller,
        ) == Some(*r->Ok_0),
        r is Err ==> r->Err_0 is ControllerNotFound && r->Err_0->ControllerNotFound_0@ == canister@
            && r->Err_0->ControllerNotFound_1@ == network@,
{
    match config.get_controller(canister, network, controller) {
        Some(identity) => Ok(identity),
        None => Err(
            AgentConfigError::ControllerNotFound(
                String::from_str(canister),
                String::from_str(network),
            ),
        ),
    }
}

} // verus!
