//! The legacy layout of a stable storage region: the content alone, as MessagePack.

use crate::data_format::{read_content, wrote_content, DataFormatType, MsgPackAdapter, SerdeDataFormat};
use crate::dscvr_interface::Interface;
use crate::header::Header;
use crate::movable_io::{IoError, MovableReader, MovableWriter};
use crate::transient::Transient;
use crate::StorageError;
use vstd::prelude::*;

verus! {

/// The header that a restore makes up for content of `content_length` bytes.
pub open spec fn spec_restored_header(content_length: nat) -> Header {
    Header {
        header_length: 0,
        content_length: content_length as u64,
        content_format: DataFormatType::MsgPack,
        content_schema_version: 0,
        pre_upgrade_instruction_count: 0,
    }
}

/// Serialize using v1 layout
pub fn save<I: Interface, T: serde::Serialize>(
    _system: &I,
    writer: &mut MovableWriter,
    t: &T,
) -> (r: Result<(), StorageError>)
    ensures
        r is Ok ==> wrote_content(old(writer), final(writer)),
        r is Err ==> final(writer).bytes() == old(writer).bytes() && final(writer).position()
            == old(writer).position(),
        r is Err ==> r->Err_0 is MsgPackEncodeError || r->Err_0 == StorageError::Io(
            IoError::OutOfRange,
        ),
{
    MsgPackAdapter::serialize(writer, t)
}

/// What a restore returns once the content decoder has answered: the decoded value with a
/// header made up from the number of bytes that the decoder consumed, or the decoder's error.
pub fn complete_restore<T>(
    decoded: Result<T, StorageError>,
    content_length: u64,
    instruction_count: u64,
) -> (r: Result<(Header, Transient, T), StorageError>)
    ensures
        decoded is Ok ==> r is Ok && r->Ok_0.0 == spec_restored_header(content_length as nat)
            && r->Ok_0.1 == (Transient {
            skip_next_save: false,
            post_upgrade_instruction_count: instruction_count,
        }) && r->Ok_0.2 == decoded->Ok_0,
        decoded is Err ==> r is Err && r->Err_0 == decoded->Err_0,
{
    match decoded {
        Ok(t) => {
            let header = Header {
                header_length: 0,
                content_length,
                content_format: DataFormatType::MsgPack,
                content_schema_version: 0,
                pre_upgrade_instruction_count: 0,
            };
            Ok((header, Transient::after_restore(instruction_count), t))
        },
        Err(e) => Err(e),
    }
}

/// Deserialize using v1 layout
pub fn restore<I: Interface, T: serde::de::DeserializeOwned>(
    system: &I,
    reader: &mut MovableReader,
) -> (r: Result<(Header, Transient, T), StorageError>)
    ensures
        r is Ok ==> read_content(old(reader), final(reader)) && r->Ok_0.0 == spec_restored_header(
            (final(reader).position() - old(reader).position()) as nat,
        ) && !r->Ok_0.1.skip_next_save,
        r is Err ==> r->Err_0 is MsgPackDecodeError && final(reader).bytes() == old(reader).bytes() && final(reader).position() == old(reader).position(),
{
    let start: u64 = reader.stream_position();
    let decoded = MsgPackAdapter::deserialize::<T>(reader);
    let end: u64 = reader.stream_position();
    let instruction_count = system.instruction_counter();
    let consumed: u64 = if end >= start {
        end - start
    } else {
        0
    };
    complete_restore(decoded, consumed, instruction_count)
}

} // verus!
