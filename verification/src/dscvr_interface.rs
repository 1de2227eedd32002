//! The system that a canister runs on, as its code sees it.

use candid::Principal;
use ic_cdk::api::call::RejectionCode;
use vstd::prelude::*;

verus! {

#[verifier::external_type_specification]
#[verifier::external_body]
pub struct ExPrincipal(candid::Principal);

#[verifier::external_type_specification]
#[verifier::external_body]
pub struct ExRejectionCode(ic_cdk::api::call::RejectionCode);

/// What the system that a canister runs on answers. Every answer is an observation: two
/// calls may differ.
pub trait Interface {
    /// The current time in nanoseconds since the Unix epoch.
    fn time(&self) -> u64;

    /// The principal that made the call.
    fn caller(&self) -> Principal;

    /// The cycle balance of the canister.
    fn canister_balance(&self) -> u64;

    /// Whether calls to other canisters go out from this system.
    open spec fn calls_canisters(&self) -> bool {
        true
    }

    /// Call a method of another canister, with a payment of cycles, and hand its answer or
    /// its rejection back. A system from which no calls go out is not to be asked.
    fn call_canister(
        &self,
        canister_id: Principal,
        method: String,
        args: Vec<u8>,
        payment: u64,
    ) -> Result<Vec<u8>, (RejectionCode, String)>
        requires
            self.calls_canisters(),
    ;

    /// The principal of the canister.
    fn id(&self) -> Principal;

    /// The memory in use, in bytes.
    fn get_memory_usage(&self) -> u64;

    /// The performance counter of the given type.
    fn performance_counter(&self, counter_type: u32) -> u64;

    /// The instructions executed so far in the current message.
    fn instruction_counter(&self) -> u64;

    /// The size of stable memory in pages.
    fn stable64_size(&self) -> u64;
}

/// The time from the system clock, in nanoseconds since the Unix epoch.
///
/// Calls `time::OffsetDateTime::now_utc` and `unix_timestamp_nanos`, and cuts the result to
/// 64 bits. Nothing is claimed of the value.
#[verifier::external_body]
fn system_time_nanos() -> u64 {
    time::OffsetDateTime::now_utc().unix_timestamp_nanos() as u64
}

/// The bytes that a principal holds: what `as_slice` shows of it.
pub uninterp spec fn principal_bytes(principal: Principal) -> Seq<u8>;

/// The principal that holds the given bytes.
///
/// Calls `Principal::from_slice`, which copies the bytes into the principal and panics on
/// more than 29 of them.
#[verifier::external_body]
fn principal_from_slice(bytes: &[u8]) -> (r: Principal)
    requires
        bytes@.len() <= 29,
    ensures
        principal_bytes(r) == bytes@,
{
    Principal::from_slice(bytes)
}

/// The principal of the management canister, `aaaaa-aa`: the one that holds no bytes.
pub fn management_canister() -> (r: Principal)
    ensures
        principal_bytes(r) == Seq::<u8>::empty(),
{
    let bytes: Vec<u8> = Vec::new();
    principal_from_slice(bytes.as_slice())
}

/// A system outside of any canister, with a caller and a clock that can be fixed.
pub struct Edge {
    caller: Principal,
    time: Option<u64>,
}

impl Edge {
    /// The principal that calls are made as.
    pub closed spec fn spec_caller(&self) -> Principal {
        self.caller
    }

    /// The time that this system was fixed to, if any.
    pub closed spec fn fixed_time(&self) -> Option<u64> {
        self.time
    }

    /// A system whose calls are made as `caller` and whose clock reads `time`, or the system
    /// clock where `time` is `None`.
    pub fn new_with_caller_and_time(caller: Principal, time: Option<u64>) -> (r: Self)
        ensures
            r.spec_caller() == caller,
            r.fixed_time() == time,
    {
        Edge { caller, time }
    }
}

impl Default for Edge {
    fn default() -> (r: Self)
        ensures
            principal_bytes(r.spec_caller()) == Seq::<u8>::empty(),
            r.fixed_time().is_none(),
    {
        Edge { caller: management_canister(), time: None }
    }
}

impl Interface for Edge {
    fn time(&self) -> (r: u64)
        ensures
            self.fixed_time() is Some ==> r == self.fixed_time()->Some_0,
    {
        match self.time {
            Some(t) => t,
            None => system_time_nanos(),
        }
    }

    fn caller(&self) -> (r: Principal)
        ensures
            r == self.spec_caller(),
    {
        self.caller
    }

    fn canister_balance(&self) -> (r: u64)
        ensures
            r == 500,
    {
        500
    }

    /// No calls to other canisters go out from this system.
    open spec fn calls_canisters(&self) -> bool {
        false
    }

    /// Never to be called: there is no canister to reach from here.
    fn call_canister(
        &self,
        _canister_id: Principal,
        _method: String,
        _args: Vec<u8>,
        _payment: u64,
    ) -> Result<Vec<u8>, (RejectionCode, String)> {
        vstd::pervasive::unreached()
    }

    fn id(&self) -> (r: Principal)
        ensures
            r == self.spec_caller(),
    {
        self.caller()
    }

    fn get_memory_usage(&self) -> (r: u64)
        ensures
            r == 0,
    {
        0
    }

    fn performance_counter(&self, _counter_type: u32) -> (r: u64)
        ensures
            r == 0,
    {
        0
    }

    fn instruction_counter(&self) -> (r: u64)
        ensures
            r == 0,
    {
        0
    }

    fn stable64_size(&self) -> (r: u64)
        ensures
            r == 0,
    {
        0
    }
}

/// The system that unit tests run on.
#[derive(Default)]
pub struct UnitTest;

impl Interface for UnitTest {
    fn time(&self) -> u64 {
        system_time_nanos()
    }

    fn caller(&self) -> (r: Principal)
        ensures
            principal_bytes(r) == Seq::<u8>::empty(),
    {
        management_canister()
    }

    /// No calls to other canisters go out from this system.
    open spec fn calls_canisters(&self) -> bool {
        false
    }

    /// Never to be called: there is no canister to reach from here.
    fn call_canister(
        &self,
        _canister_id: Principal,
        _method: String,
        _args: Vec<u8>,
        _payment: u64,
    ) -> Result<Vec<u8>, (RejectionCode, String)> {
        vstd::pervasive::unreached()
    }

    fn id(&self) -> (r: Principal)
        ensures
            principal_bytes(r) == Seq::<u8>::empty(),
    {
        self.caller()
    }

    fn canister_balance(&self) -> (r: u64)
        ensures
            r == 500,
    {
        500
    }

    fn get_memory_usage(&self) -> (r: u64)
        ensures
            r == 0,
    {
        0
    }

    fn performance_counter(&self, _counter_type: u32) -> (r: u64)
        ensures
            r == 0,
    {
        0
    }

    fn instruction_counter(&self) -> (r: u64)
        ensures
            r == 0,
    {
        0
    }

    fn stable64_size(&self) -> (r: u64)
        ensures
            r == 0,
    {
        0
    }
}

} // verus!
