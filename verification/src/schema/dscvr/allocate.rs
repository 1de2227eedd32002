//! Making instances of a canister available, and giving them their ids

use crate::schema::dscvr::{
    clone_instances, spec_instances, spec_view_has_network, spec_view_network,
    spec_view_with_network, CanisterInstance, CanisterInstanceView, CanisterNetworkView,
    DSCVRConfig, DSCVRGenerationError,
};
use crate::text::{push_decimal, spec_decimal, str_equal};
use vstd::prelude::*;
use vstd::string::StringExecFns;

verus! {

/// The name of the instance of a canister with the given number.
pub open spec fn spec_instance_name(canister_name: Seq<char>, number: nat) -> Seq<char> {
    canister_name + ":"@ + spec_decimal(number)
}

/// `count` new instances of a canister, numbered from `next` on, without ids.
pub open spec fn spec_new_instances(canister_name: Seq<char>, next: nat, count: nat) -> Seq<
    CanisterInstanceView,
> {
    Seq::new(
        count,
        |k: int|
            CanisterInstanceView {
                name: spec_instance_name(canister_name, (next + k) as nat),
                id: None,
            },
    )
}

/// The instances, or none where there are none.
pub open spec fn spec_or_empty(instances: Option<Seq<CanisterInstanceView>>) -> Seq<
    CanisterInstanceView,
> {
    match instances {
        Some(instances) => instances,
        None => Seq::empty(),
    }
}

/// The network with other available instances.
pub open spec fn spec_with_available(
    network: CanisterNetworkView,
    available: Option<Seq<CanisterInstanceView>>,
) -> CanisterNetworkView {
    CanisterNetworkView {
        provider: network.provider,
        controllers: network.controllers,
        provisioned_instances: network.provisioned_instances,
        available_instances: available,
        wallet: network.wallet,
    }
}

/// The number of the next instance of a canister on a network: one more than it has
/// instances.
pub open spec fn spec_next_number(network: CanisterNetworkView) -> nat {
    spec_or_empty(network.provisioned_instances).len() + spec_or_empty(
        network.available_instances,
    ).len() + 1
}

/// The place of the first instance with the given name.
pub open spec fn spec_is_first_named(
    instances: Seq<CanisterInstanceView>,
    name: Seq<char>,
    index: int,
) -> bool {
    &&& 0 <= index < instances.len()
    &&& instances[index].name == name
    &&& forall|j: int| 0 <= j < index ==> (#[trigger] instances[j]).name != name
}

/// Whether an instance has the given name.
pub open spec fn spec_is_named(instances: Seq<CanisterInstanceView>, name: Seq<char>) -> bool {
    exists|index: int| 0 <= index < instances.len() && (#[trigger] instances[index]).name == name
}

/// The instances after the first of them that has the name of `given` has taken its id.
pub open spec fn spec_register_one(
    instances: Seq<CanisterInstanceView>,
    given: CanisterInstanceView,
) -> Seq<CanisterInstanceView> {
    if spec_is_named(instances, given.name) {
        let index = choose|index: int| spec_is_first_named(instances, given.name, index);
        instances.update(index, CanisterInstanceView { name: given.name, id: given.id })
    } else {
        instances
    }
}

/// The instances after each of `given`, in order, has been registered.
pub open spec fn spec_register(
    instances: Seq<CanisterInstanceView>,
    given: Seq<CanisterInstanceView>,
) -> Seq<CanisterInstanceView>
    decreases given.len(),
{
    if given.len() == 0 {
        instances
    } else {
        spec_register_one(spec_register(instances, given.drop_last()), given.last())
    }
}

/// The first instance with a name is found at one place only.
pub proof fn lemma_first_named(instances: Seq<CanisterInstanceView>, name: Seq<char>, index: int)
    requires
        spec_is_first_named(instances, name, index),
    ensures
        spec_is_named(instances, name),
        (choose|other: int| spec_is_first_named(instances, name, other)) == index,
{
    let other = choose|other: int| spec_is_first_named(instances, name, other);
    assert(spec_is_first_named(instances, name, other));
    if other < index {
        assert(instances[other].name != name);
    } else if index < other {
        assert(instances[index].name != name);
    }
}

impl DSCVRConfig {
    /// Add `available_instances` to self for the specified canister and network.
    ///
    /// The new instances are named after the canister and numbered on from the instances
    /// that the canister has on the network. They are put behind the available instances,
    /// and a copy of them is handed back.
    pub fn add_available_canisters(&mut self, canister_name: &str, network: &str, count: usize) -> (r:
        Result<Vec<CanisterInstance>, DSCVRGenerationError>)
        ensures
            !spec_view_has_network(old(self)@, canister_name@, network@) ==> r is Err && r->Err_0
                is MissingElement,
            spec_view_has_network(old(self)@, canister_name@, network@) ==> {
                let before = spec_view_network(old(self)@, canister_name@, network@);
                let next = spec_next_number(before);
                let added = spec_new_instances(canister_name@, next, count as nat);
                if next + count <= usize::MAX {
                    &&& r is Ok
                    &&& spec_instances(r->Ok_0@) == added
                    &&& final(self)@ == spec_view_with_network(
                        old(self)@,
                        canister_name@,
                        network@,
                        spec_with_available(
                            before,
                            Some(spec_or_empty(before.available_instances) + added),
                        ),
                    )
                } else {
                    r is Err && r->Err_0 is ProvisionError
                }
            },
            r is Err ==> final(self)@ == old(self)@,
    {
        let (at, on) = match self.get_canister_for_network_mut(canister_name, network) {
            Ok(places) => places,
            Err(e) => {
                return Err(e);
            },
        };
        let found = self.canisters.value_at(at).networks.value_at(on);
        let provisioned: usize = match &found.provisioned_instances {
            Some(instances) => instances.len(),
            None => 0,
        };
        let available: usize = match &found.available_instances {
            Some(instances) => instances.len(),
            None => 0,
        };
        if provisioned > usize::MAX - available || provisioned + available > usize::MAX - 1
            || provisioned + available + 1 > usize::MAX - count {
            return Err(
                DSCVRGenerationError::ProvisionError(
                    String::from_str("Too many canister instances"),
                ),
            );
        }
        let next: usize = provisioned + available + 1;
        let mut new_canisters: Vec<CanisterInstance> = Vec::new();
        let mut k: usize = 0;
        while k < count
            invariant
                k <= count,
                next + count <= usize::MAX,
                new_canisters@.len() == k,
                spec_instances(new_canisters@) == spec_new_instances(
                    canister_name@,
                    next as nat,
                    k as nat,
                ),
            decreases count - k,
        {
            let ghost before = new_canisters@;
            let mut name = String::from_str(canister_name);
            name.append(":");
            push_decimal(&mut name, (next + k) as u64);
            assert(name@ == spec_instance_name(canister_name@, (next + k) as nat));
            new_canisters.push(CanisterInstance { name, id: None });
            k = k + 1;
            assert forall|j: int| 0 <= j < k implies spec_instances(new_canisters@)[j]
                == spec_new_instances(canister_name@, next as nat, k as nat)[j] by {
                if j < k - 1 {
                    assert(spec_instances(before)[j] == spec_new_instances(
                        canister_name@,
                        next as nat,
                        (k - 1) as nat,
                    )[j]);
                }
            }
            assert(spec_instances(new_canisters@) =~= spec_new_instances(
                canister_name@,
                next as nat,
                k as nat,
            ));
        }
        let mut updated = found.clone();
        let mut all_available = match updated.available_instances {
            Some(instances) => instances,
            None => Vec::new(),
        };
        let ghost kept = all_available@;
        let mut added = clone_instances(&new_canisters);
        let ghost copied = added@;
        all_available.append(&mut added);
        assert(spec_instances(kept + copied) =~= spec_instances(kept) + spec_instances(copied));
        updated.available_instances = Some(all_available);
        self.set_network(at, on, updated);
        Ok(new_canisters)
    }

    /// Update available canisters with IDs
    ///
    /// Each given instance, in order, hands its id to the first available instance of the
    /// same name, if there is one.
    pub fn register_available_canisters(
        &mut self,
        canister_name: &str,
        network: &str,
        canisters: Vec<CanisterInstance>,
    ) -> (r: Result<(), DSCVRGenerationError>)
        ensures
            !spec_view_has_network(old(self)@, canister_name@, network@) ==> r is Err && r->Err_0
                is MissingElement,
            spec_view_has_network(old(self)@, canister_name@, network@) ==> {
                let before = spec_view_network(old(self)@, canister_name@, network@);
                match before.available_instances {
                    Some(available) => r is Ok && final(self)@ == spec_view_with_network(
                        old(self)@,
                        canister_name@,
                        network@,
                        spec_with_available(
                            before,
                            Some(spec_register(available, spec_instances(canisters@))),
                        ),
                    ),
                    None => r is Err && r->Err_0 is NoAvailableCanisterInstances && {
                        let e = r->Err_0;
                        &&& e->NoAvailableCanisterInstances_0@ == canister_name@
                        &&& e->NoAvailableCanisterInstances_1@ == network@
                        &&& e->NoAvailableCanisterInstances_2@ == "Register"@
                    },
                }
            },
            r is Err ==> final(self)@ == old(self)@,
    {
        let (at, on) = match self.get_canister_for_network_mut(canister_name, network) {
            Ok(places) => places,
            Err(e) => {
                return Err(e);
            },
        };
        let found = self.canisters.value_at(at).networks.value_at(on);
        let mut updated = found.clone();
        let mut available = match updated.available_instances {
            Some(instances) => instances,
            None => {
                return Err(
                    DSCVRGenerationError::NoAvailableCanisterInstances(
                        String::from_str(canister_name),
                        String::from_str(network),
                        String::from_str("Register"),
                    ),
                );
            },
        };
        let ghost start = spec_instances(available@);
        let mut g: usize = 0;
        while g < canisters.len()
            invariant
                g <= canisters@.len(),
                spec_instances(available@) == spec_register(
                    start,
                    spec_instances(canisters@.take(g as int)),
                ),
            decreases canisters@.len() - g,
        {
            let ghost registered = spec_instances(available@);
            let ghost given = canisters@[g as int]@;
            proof {
                let taken = spec_instances(canisters@.take(g + 1));
                assert(taken.drop_last() =~= spec_instances(canisters@.take(g as int)));
                assert(taken.last() == given);
            }
            let mut i: usize = 0;
            let mut found_at: Option<usize> = None;
            while i < available.len() && found_at.is_none()
                invariant
                    i <= available@.len(),
                    g < canisters@.len(),
                    given == canisters@[g as int]@,
                    found_at is None ==> forall|j: int|
                        0 <= j < i ==> (#[trigger] spec_instances(available@)[j]).name
                            != given.name,
                    found_at is Some ==> spec_is_first_named(
                        spec_instances(available@),
                        given.name,
                        found_at->Some_0 as int,
                    ),
                decreases available@.len() - i + (if found_at is None { 1nat } else { 0nat }),
            {
                if str_equal(available[i].name.as_str(), canisters[g].name.as_str()) {
                    found_at = Some(i);
                } else {
                    i = i + 1;
                }
            }
            match found_at {
                Some(index) => {
                    proof {
                        lemma_first_named(registered, given.name, index as int);
                    }
                    let name = available[index].name.clone();
                    let id = crate::schema::dscvr::clone_text(&canisters[g].id);
                    available.set(index, CanisterInstance { name, id });
                    assert(spec_instances(available@) =~= spec_register_one(registered, given));
                },
                None => {
                    assert(!spec_is_named(registered, given.name));
                },
            }
            g = g + 1;
        }
        assert(canisters@.take(g as int) =~= canisters@);
        updated.available_instances = Some(available);
        self.set_network(at, on, updated);
        Ok(())
    }
}

} // verus!
