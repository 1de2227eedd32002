//! v1 implementation for stable storage

use crate::data_format::DataFormatType;
use crate::dscvr_interface::Interface;
use crate::interface::v2::spec_has_room;
use crate::interface::{spec_whole_pages, StableMemory, StableStorage};
use crate::movable_io::{write_at, IoError, MovableReader, MovableWriter};
use crate::v1::spec_restored_header;
use crate::StorageError;
use vstd::prelude::*;

verus! {

/// Whether `after` is `before` with some content written at its start, and the last page
/// filled up.
pub open spec fn written_into(before: Seq<u8>, after: Seq<u8>) -> bool {
    exists|content: Seq<u8>|
        #![trigger write_at(before, 0, content)]
        after == spec_whole_pages(write_at(before, 0, content))
}

/// Write encoded content at the start of stable memory, which grows by whole pages where
/// the content does not fit. Content that cannot be addressed is refused, and nothing is
/// written.
pub fn write_content(memory: &mut StableMemory, content: &[u8]) -> (r: Result<(), StorageError>)
    ensures
        !spec_has_room(old(memory).bytes().len(), content@.len()) ==> r is Err && r->Err_0
            == StorageError::Io(IoError::OutOfRange) && final(memory).bytes() == old(memory).bytes(),
        spec_has_room(old(memory).bytes().len(), content@.len()) ==> r is Ok && final(memory).bytes() == spec_whole_pages(write_at(old(memory).bytes(), 0, content@)) && final(memory).is_whole_pages(),
{
    let size: usize = memory.as_slice().len();
    let new_size: usize = if size >= content.len() {
        size
    } else {
        content.len()
    };
    if !StableMemory::fits_whole_pages(new_size) {
        return Err(StorageError::Io(IoError::OutOfRange));
    }
    let ghost before = memory.bytes();
    let mut writer = MovableWriter::new(memory.take());
    let written = writer.write_all(content);
    assert(written is Ok);
    assert(writer.bytes() == write_at(before, 0, content@));
    memory.store(writer.into_inner());
    Ok(())
}

/// Serialize using v1 layout into canister stable storage
pub fn save<I: Interface, T: serde::Serialize>(
    _interface: &I,
    memory: &mut StableMemory,
    t: &T,
) -> (r: Result<(), StorageError>)
    ensures
        r is Ok ==> written_into(old(memory).bytes(), final(memory).bytes()) && final(memory).is_whole_pages(),
        r is Err ==> final(memory).bytes() == old(memory).bytes(),
        r is Err ==> r->Err_0 is MsgPackEncodeError || r->Err_0 == StorageError::Io(
            IoError::OutOfRange,
        ),
{
    let content = match DataFormatType::MsgPack.serde_serialize_bytes(t) {
        Ok(content) => content,
        Err(e) => {
            return Err(e);
        },
    };
    write_content(memory, content.as_slice())
}

/// Deserialize using v1 layout into canister stable storage
///
/// On success a header made up from what was decoded and a fresh transient state are left
/// behind.
pub fn restore<I: Interface, T: serde::de::DeserializeOwned>(
    storage: &mut StableStorage,
    system: &I,
    memory: &StableMemory,
) -> (r: Result<T, StorageError>)
    ensures
        r is Ok ==> exists|content_length: nat|
            #![trigger spec_restored_header(content_length)]
            content_length <= memory.bytes().len() && final(storage).header
                == spec_restored_header(content_length),
        r is Ok ==> !final(storage).transient.skip_next_save,
        r is Err ==> r->Err_0 is MsgPackDecodeError && *final(storage) == *old(storage),
{
    let mut reader = MovableReader::new(memory.as_slice());
    assert(reader.unread() =~= memory.bytes());
    match crate::v1::restore::<I, T>(system, &mut reader) {
        Ok((header, transient, t)) => {
            storage.header = header;
            storage.transient = transient;
            assert(header == spec_restored_header(reader.position()));
            Ok(t)
        },
        Err(e) => Err(e),
    }
}

} // verus!
