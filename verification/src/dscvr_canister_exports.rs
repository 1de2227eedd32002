//! Functionality for registering canister lifecycle and methods for use
//! with the dscvr canister mirror

use crate::string_map::{spec_view_insert, StringMap};
use vstd::prelude::*;
use vstd::string::StringExecFns;

verus! {

/// A single canister registration
pub struct CanisterDefinition<Update, Query, Init, Lifecycle> {
    /// Map of candid name to the update method
    pub update_methods: StringMap<Update>,
    /// Map of candid name to the query method
    pub query_methods: StringMap<Query>,
    /// Init method
    pub init_method: Init,
    /// Pre upgrade method
    pub pre_upgrade: Lifecycle,
    /// Post upgrade method
    pub post_upgrade: Lifecycle,
    /// Is this the primary registration
    pub primary: bool,
}

/// The methods by name after the registrations have been read in order: a later
/// registration of a name takes the place of an earlier one.
pub open spec fn spec_registered<M>(registrations: Seq<(&'static str, M)>) -> Seq<(Seq<char>, M)>
    decreases registrations.len(),
{
    if registrations.len() == 0 {
        Seq::empty()
    } else {
        spec_view_insert(
            spec_registered(registrations.drop_last()),
            registrations.last().0@,
            registrations.last().1,
        )
    }
}

/// Read the registrations of methods into a map by name.
pub fn register<M: Copy>(registrations: &[(&'static str, M)]) -> (r: StringMap<M>)
    ensures
        r.pairs() == spec_registered(registrations@),
{
    let mut methods: StringMap<M> = StringMap::new();
    assert(methods.pairs() =~= Seq::empty());
    let mut i: usize = 0;
    while i < registrations.len()
        invariant
            i <= registrations@.len(),
            methods.pairs() == spec_registered(registrations@.take(i as int)),
        decreases registrations@.len() - i,
    {
        proof {
            assert(registrations@.take(i + 1).drop_last() =~= registrations@.take(i as int));
            assert(registrations@.take(i + 1).last() == registrations@[i as int]);
        }
        let (name, method) = registrations[i];
        let _ = methods.insert(String::from_str(name), method);
        i = i + 1;
    }
    assert(registrations@.take(i as int) =~= registrations@);
    methods
}

impl<Update: Copy, Query: Copy, Init: Copy, Lifecycle: Copy> CanisterDefinition<
    Update,
    Query,
    Init,
    Lifecycle,
> {
    /// Returns a registration by reading from the registered slices
    pub fn new(
        updates: &[(&'static str, Update)],
        queries: &[(&'static str, Query)],
        init: &[(&'static str, Init)],
        post_upgrade: &[(&'static str, Lifecycle)],
        pre_upgrade: &[(&'static str, Lifecycle)],
        primary: bool,
    ) -> (r: Self)
        requires
            init@.len() > 0,
            post_upgrade@.len() > 0,
            pre_upgrade@.len() > 0,
        ensures
            r.update_methods.pairs() == spec_registered(updates@),
            r.query_methods.pairs() == spec_registered(queries@),
            r.init_method == init@[0].1,
            r.post_upgrade == post_upgrade@[0].1,
            r.pre_upgrade == pre_upgrade@[0].1,
            r.primary == primary,
    {
        CanisterDefinition {
            update_methods: register(updates),
            query_methods: register(queries),
            init_method: init[0].1,
            post_upgrade: post_upgrade[0].1,
            pre_upgrade: pre_upgrade[0].1,
            primary,
        }
    }
}

} // verus!
