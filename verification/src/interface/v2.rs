//! v2 implementation for stable storage

use crate::data_format::DataFormatType;
use crate::dscvr_interface::Interface;
use crate::header::{spec_decode, Header, HeaderError};
use crate::interface::{spec_whole_pages, StableMemory, StableStorage};
use crate::movable_io::{IoError, MovableReader, MovableWriter};
use crate::v2::spec_saved;
use crate::StorageError;
use vstd::prelude::*;

verus! {

/// The header that a save starts from: the one that was left behind, with the format and
/// the schema version of this save.
pub open spec fn spec_header_to_save(header: Header, format: DataFormatType, version: u64) -> Header {
    Header {
        header_length: header.header_length,
        content_length: header.content_length,
        content_format: format,
        content_schema_version: version,
        pre_upgrade_instruction_count: header.pre_upgrade_instruction_count,
    }
}

/// Whether `after` is `before` with some content saved at its start under `header`, and the
/// last page filled up.
pub open spec fn saved_into(before: Seq<u8>, after: Seq<u8>, header: Header) -> bool {
    exists|content: Seq<u8>, instruction_count: u64|
        #![trigger spec_saved(before, 0, header, content, instruction_count)]
        after == spec_whole_pages(spec_saved(before, 0, header, content, instruction_count))
}

/// Whether stable memory of `size` bytes has room, on this machine, for a region of `len`
/// bytes at its start: the memory is as large as the larger of the two, filled up to whole
/// pages.
pub open spec fn spec_has_room(size: nat, len: nat) -> bool {
    let new_size = if size >= len {
        size
    } else {
        len
    };
    new_size + (65536 - new_size % 65536) % 65536 <= usize::MAX
}

/// Save encoded content, under the header that describes it, at the start of stable memory,
/// which grows by whole pages where the region does not fit. An unknown format and a region
/// that cannot be addressed are refused, and nothing is written.
pub fn save_content(
    memory: &mut StableMemory,
    content: &[u8],
    header: Header,
    instruction_count: u64,
) -> (r: Result<(), StorageError>)
    ensures
        header.content_format == DataFormatType::Unknown ==> r is Err && r->Err_0
            == StorageError::Header(HeaderError::InvalidContentFormat(0)),
        header.content_format != DataFormatType::Unknown && !spec_has_room(
            old(memory).bytes().len(),
            40 + content@.len(),
        ) ==> r is Err && r->Err_0 == StorageError::Io(IoError::OutOfRange),
        header.content_format != DataFormatType::Unknown && spec_has_room(
            old(memory).bytes().len(),
            40 + content@.len(),
        ) ==> r is Ok && final(memory).bytes() == spec_whole_pages(
            spec_saved(old(memory).bytes(), 0, header, content@, instruction_count),
        ) && final(memory).is_whole_pages(),
        r is Err ==> final(memory).bytes() == old(memory).bytes(),
{
    if header.content_format == DataFormatType::Unknown {
        return Err(
            StorageError::Header(HeaderError::InvalidContentFormat(header.content_format.tag())),
        );
    }
    let size: usize = memory.as_slice().len();
    if content.len() > usize::MAX - 40 {
        return Err(StorageError::Io(IoError::OutOfRange));
    }
    let end: usize = content.len() + 40;
    let new_size: usize = if size >= end {
        size
    } else {
        end
    };
    if !StableMemory::fits_whole_pages(new_size) {
        return Err(StorageError::Io(IoError::OutOfRange));
    }
    let ghost before = memory.bytes();
    let mut writer = MovableWriter::new(memory.take());
    let saved = crate::v2::save_content(&mut writer, content, header, instruction_count);
    assert(saved is Ok);
    assert(writer.bytes() == spec_saved(before, 0, header, content@, instruction_count));
    proof {
        crate::header::lemma_encoded_len(
            crate::v2::spec_saved_header(header, content@.len(), instruction_count),
        );
        assert(writer.bytes().len() == new_size);
    }
    memory.store(writer.into_inner());
    Ok(())
}

/// Serialize using v2 layout into canister stable storage
///
/// Nothing is written where the next save is to be skipped. Otherwise the value is encoded
/// in `format` and saved at the start of stable memory, which grows by whole pages where the
/// region does not fit.
pub fn save<I: Interface, T: serde::Serialize>(
    storage: &StableStorage,
    interface: &I,
    memory: &mut StableMemory,
    t: &T,
    format: DataFormatType,
    version: u64,
) -> (r: Result<(), StorageError>)
    ensures
        storage.transient.skip_next_save ==> r is Ok && final(memory).bytes() == old(memory).bytes(),
        !storage.transient.skip_next_save && format == DataFormatType::Unknown ==> r is Err
            && r->Err_0 == StorageError::Header(HeaderError::InvalidContentFormat(0)),
        !storage.transient.skip_next_save && r is Ok ==> saved_into(
            old(memory).bytes(),
            final(memory).bytes(),
            spec_header_to_save(storage.header, format, version),
        ) && final(memory).is_whole_pages(),
        !storage.transient.skip_next_save && format != DataFormatType::Unknown && r is Err
            ==> r->Err_0 == StorageError::Io(IoError::OutOfRange) || match format {
            DataFormatType::MsgPack => r->Err_0 is MsgPackEncodeError,
            DataFormatType::Bincode => r->Err_0 is BincodeError,
            DataFormatType::Unknown => false,
        },
        r is Err ==> final(memory).bytes() == old(memory).bytes(),
{
    if storage.transient.skip_next_save {
        return Ok(());
    }
    let mut header = storage.header;
    header.content_format = format;
    header.content_schema_version = version;
    let content = match format.serde_serialize_bytes(t) {
        Ok(content) => content,
        Err(e) => {
            return Err(e);
        },
    };
    let instruction_count = interface.instruction_counter();
    save_content(memory, content.as_slice(), header, instruction_count)
}

/// Deserialize using v2 layout into canister stable storage
///
/// On success the header that was read and a fresh transient state are left behind.
pub fn restore<I: Interface, T: serde::de::DeserializeOwned, P: FnOnce(u64)>(
    storage: &mut StableStorage,
    system: &I,
    memory: &StableMemory,
    publish_version: P,
) -> (r: Result<T, StorageError>)
    requires
        forall|version: u64| publish_version.requires((version,)),
    ensures
        spec_decode(memory.bytes()) is Ok ==> call_ensures(
            publish_version,
            (spec_decode(memory.bytes())->Ok_0.content_schema_version,),
            (),
        ),
        spec_decode(memory.bytes()) is Err ==> r is Err && r->Err_0 == StorageError::Header(
            spec_decode(memory.bytes())->Err_0,
        ),
        r is Ok ==> spec_decode(memory.bytes()) is Ok && final(storage).header == spec_decode(
            memory.bytes(),
        )->Ok_0 && !final(storage).transient.skip_next_save,
        r is Err ==> *final(storage) == *old(storage),
        spec_decode(memory.bytes()) is Ok && r is Err ==> (match spec_decode(
            memory.bytes(),
        )->Ok_0.content_format {
            DataFormatType::MsgPack => r->Err_0 is MsgPackDecodeError,
            DataFormatType::Bincode => r->Err_0 is BincodeError,
            DataFormatType::Unknown => false,
        }),
{
    let mut reader = MovableReader::new(memory.as_slice());
    assert(reader.unread() =~= memory.bytes());
    match crate::v2::restore::<I, T, P>(system, &mut reader, publish_version) {
        Ok((header, transient, t, _)) => {
            storage.header = header;
            storage.transient = transient;
            Ok(t)
        },
        Err(e) => Err(e),
    }
}

} // verus!
