//! Provisioning instances of a canister that are available

use crate::schema::dscvr::allocate::spec_with_available;
use crate::schema::dscvr::{
    clone_instances, spec_instances, spec_view_has_network, spec_view_network,
    spec_view_with_network, CanisterInstance, CanisterInstanceView, CanisterNetworkView,
    DSCVRConfig, DSCVRGenerationError,
};
use vstd::prelude::*;
use vstd::string::StringExecFns;

verus! {

/// The last `count` instances, the last of them first.
pub open spec fn spec_taken_from_end(instances: Seq<CanisterInstanceView>, count: nat) -> Seq<
    CanisterInstanceView,
> {
    Seq::new(count, |k: int| instances[instances.len() - 1 - k])
}

/// The network after `taken` of its available instances have been provisioned: they have
/// left the available instances, of which `left` remain, and stand behind the provisioned
/// instances where the network keeps such a list.
pub open spec fn spec_provisioned(
    network: CanisterNetworkView,
    left: Seq<CanisterInstanceView>,
    taken: Seq<CanisterInstanceView>,
) -> CanisterNetworkView {
    CanisterNetworkView {
        provider: network.provider,
        controllers: network.controllers,
        provisioned_instances: match network.provisioned_instances {
            Some(provisioned) => Some(provisioned + taken),
            None => None,
        },
        available_instances: Some(left),
        wallet: network.wallet,
    }
}

impl DSCVRConfig {
    /// Moves a set of available instances to provisioned in the
    /// config file.  This is done to signal that a canister has
    /// had its wasm installed, is no longer able to be provisioned.
    ///
    /// The instances are taken from the end of the available instances, the last one first.
    /// Where fewer than `count` are available, all of them are taken and given up, and the
    /// call fails.
    pub fn provision_canisters(&mut self, canister_name: &str, network: &str, count: usize) -> (r:
        Result<Vec<CanisterInstance>, DSCVRGenerationError>)
        ensures
            !spec_view_has_network(old(self)@, canister_name@, network@) ==> r is Err && r->Err_0
                is MissingElement && final(self)@ == old(self)@,
            spec_view_has_network(old(self)@, canister_name@, network@) ==> {
                let before = spec_view_network(old(self)@, canister_name@, network@);
                match before.available_instances {
                    Some(available) => if count <= available.len() {
                        let taken = spec_taken_from_end(available, count as nat);
                        &&& r is Ok
                        &&& spec_instances(r->Ok_0@) == taken
                        &&& final(self)@ == spec_view_with_network(
                            old(self)@,
                            canister_name@,
                            network@,
                            spec_provisioned(
                                before,
                                available.take(available.len() - count),
                                taken,
                            ),
                        )
                    } else {
                        &&& r is Err
                        &&& r->Err_0 is ProvisionError
                        &&& r->Err_0->ProvisionError_0@
                            == "Not enough available canisters to provision"@
                        &&& final(self)@ == spec_view_with_network(
                            old(self)@,
                            canister_name@,
                            network@,
                            spec_with_available(before, Some(Seq::empty())),
                        )
                    },
                    None => {
                        &&& r is Err
                        &&& r->Err_0 is NoAvailableCanisterInstances
                        &&& r->Err_0->NoAvailableCanisterInstances_0@ == canister_name@
                        &&& r->Err_0->NoAvailableCanisterInstances_1@ == network@
                        &&& r->Err_0->NoAvailableCanisterInstances_2@ == "Provision"@
                        &&& final(self)@ == old(self)@
                    },
                }
            },
    {
        let (at, on) = match self.get_canister_for_network_mut(canister_name, network) {
            Ok(places) => places,
            Err(e) => {
                return Err(e);
            },
        };
        let found = self.canisters.value_at(at).networks.value_at(on);
        let mut updated = found.clone();
        let mut available = match updated.available_instances {
            Some(instances) => instances,
            None => {
                return Err(
                    DSCVRGenerationError::NoAvailableCanisterInstances(
                        String::from_str(canister_name),
                        String::from_str(network),
                        String::from_str("Provision"),
                    ),
                );
            },
        };
        let ghost all = spec_instances(available@);
        let mut instance_to_provision: Vec<CanisterInstance> = Vec::new();
        while instance_to_provision.len() < count && available.len() > 0
            invariant
                instance_to_provision@.len() <= count,
                instance_to_provision@.len() + available@.len() == all.len(),
                spec_instances(available@) == all.take(available@.len() as int),
                spec_instances(instance_to_provision@) == spec_taken_from_end(
                    all,
                    instance_to_provision@.len(),
                ),
            decreases available@.len(),
        {
            let ghost left = available@;
            let ghost taken = instance_to_provision@;
            let instance = available.pop().unwrap();
            assert(instance@ == all[left.len() - 1]) by {
                assert(spec_instances(left)[left.len() - 1] == all.take(left.len() as int)[left.len()
                    - 1]);
            }
            instance_to_provision.push(instance);
            assert(spec_instances(available@) =~= all.take(available@.len() as int)) by {
                assert forall|j: int| 0 <= j < available@.len() implies spec_instances(
                    available@,
                )[j] == all[j] by {
                    assert(spec_instances(left)[j] == all.take(left.len() as int)[j]);
                }
            }
            assert(spec_instances(instance_to_provision@) =~= spec_taken_from_end(
                all,
                instance_to_provision@.len(),
            )) by {
                assert forall|j: int| 0 <= j < instance_to_provision@.len() implies spec_instances(
                    instance_to_provision@,
                )[j] == spec_taken_from_end(all, instance_to_provision@.len())[j] by {
                    if j < taken.len() {
                        assert(spec_instances(taken)[j] == spec_taken_from_end(
                            all,
                            taken.len(),
                        )[j]);
                    }
                }
            }
        }
        if instance_to_provision.len() < count {
            assert(spec_instances(available@) =~= Seq::empty());
            updated.available_instances = Some(available);
            self.set_network(at, on, updated);
            return Err(
                DSCVRGenerationError::ProvisionError(
                    String::from_str("Not enough available canisters to provision"),
                ),
            );
        }
        let instances_provisioned = clone_instances(&instance_to_provision);
        updated.available_instances = Some(available);
        updated.provisioned_instances = match updated.provisioned_instances {
            Some(provisioned) => {
                let mut provisioned = provisioned;
                let ghost first = provisioned@;
                let ghost second = instance_to_provision@;
                provisioned.append(&mut instance_to_provision);
                assert(spec_instances(first + second) =~= spec_instances(first)
                    + spec_instances(second));
                Some(provisioned)
            },
            None => None,
        };
        self.set_network(at, on, updated);
        Ok(instances_provisioned)
    }
}

} // verus!
