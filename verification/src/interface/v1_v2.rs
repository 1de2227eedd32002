//! Restoring a region that was saved in either layout

use crate::dscvr_interface::Interface;
use crate::header::spec_decode;
use crate::interface::{StableMemory, StableStorage};
use crate::v1::spec_restored_header;
use crate::StorageError;
use vstd::prelude::*;

verus! {

/// Whether `header` is one that a restore in the legacy layout makes up from `memory`.
pub open spec fn restored_from_legacy(memory: Seq<u8>, header: crate::header::Header) -> bool {
    exists|content_length: nat|
        #![trigger spec_restored_header(content_length)]
        content_length <= memory.len() && header == spec_restored_header(content_length)
}

/// What follows a restore in the current layout: its value where it succeeded, and nothing
/// where it failed, which sends the restore on to the legacy layout.
pub fn after_current_layout<T>(outcome: Result<T, StorageError>) -> (next: Option<T>)
    ensures
        outcome is Ok ==> next == Some(outcome->Ok_0),
        outcome is Err ==> next is None,
{
    match outcome {
        Ok(t) => Some(t),
        Err(_) => None,
    }
}

/// Try restoring via v2 otherwise fallback to v1
///
/// Where the region does not begin with a header that this version reads, or its content
/// does not decode, the whole region is decoded in the legacy layout.
pub fn restore<I: Interface, T: serde::de::DeserializeOwned, P: FnOnce(u64)>(
    storage: &mut StableStorage,
    system: &I,
    memory: &StableMemory,
    publish_version: P,
) -> (r: Result<T, StorageError>)
    requires
        forall|version: u64| publish_version.requires((version,)),
    ensures
        spec_decode(memory.bytes()) is Ok ==> call_ensures(
            publish_version,
            (spec_decode(memory.bytes())->Ok_0.content_schema_version,),
            (),
        ),
        r is Ok ==> !final(storage).transient.skip_next_save,
        r is Ok && spec_decode(memory.bytes()) is Err ==> restored_from_legacy(
            memory.bytes(),
            final(storage).header,
        ),
        r is Ok && spec_decode(memory.bytes()) is Ok ==> final(storage).header == spec_decode(
            memory.bytes(),
        )->Ok_0 || restored_from_legacy(memory.bytes(), final(storage).header),
        r is Err ==> r->Err_0 is MsgPackDecodeError && *final(storage) == *old(storage),
{
    let current = crate::interface::v2::restore::<I, T, P>(
        storage,
        system,
        memory,
        publish_version,
    );
    match after_current_layout(current) {
        Some(t) => Ok(t),
        None => crate::interface::v1::restore::<I, T>(storage, system, memory),
    }
}

} // verus!
