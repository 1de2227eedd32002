//! The current layout of a stable storage region: the header, then the content.

use crate::data_format::DataFormatType;
use crate::dscvr_interface::Interface;
use crate::header::{
    lemma_decode_encode, lemma_encoded_len, spec_decode, spec_decode_consumed, Header,
    HeaderError, NUM_FIELDS,
};
use crate::movable_io::{unread_from, write_at, IoError, MovableReader, MovableWriter};
use crate::transient::Transient;
use crate::StorageError;
use vstd::prelude::*;

verus! {

/// The header that a save writes in front of `content_length` bytes of content.
pub open spec fn spec_saved_header(
    header: Header,
    content_length: nat,
    instruction_count: u64,
) -> Header {
    Header {
        header_length: NUM_FIELDS,
        content_length: content_length as u64,
        content_format: header.content_format,
        content_schema_version: header.content_schema_version,
        pre_upgrade_instruction_count: instruction_count,
    }
}

/// The region after `content` has been saved at `start` under `header`.
pub open spec fn spec_saved(
    region: Seq<u8>,
    start: int,
    header: Header,
    content: Seq<u8>,
    instruction_count: u64,
) -> Seq<u8> {
    write_at(
        write_at(region, start + 40, content),
        start,
        spec_saved_header(header, content.len(), instruction_count).spec_as_bytes(),
    )
}

/// Write encoded content and, in front of it, the header that describes it.
///
/// The header's place is kept free first, the content is written behind it and measured, and
/// the header is then written into its place with the measured length and
/// `instruction_count`. The writer ends behind the header.
pub fn save_content(
    writer: &mut MovableWriter,
    content: &[u8],
    header: Header,
    instruction_count: u64,
) -> (r: Result<(), StorageError>)
    ensures
        header.content_format == DataFormatType::Unknown ==> r is Err && r->Err_0
            == StorageError::Header(HeaderError::InvalidContentFormat(0)),
        header.content_format != DataFormatType::Unknown && old(writer).position() + 40
            + content@.len() > usize::MAX ==> r is Err && r->Err_0 == StorageError::Io(
            IoError::OutOfRange,
        ),
        header.content_format != DataFormatType::Unknown && old(writer).position() + 40
            + content@.len() <= usize::MAX ==> r is Ok && final(writer).bytes() == spec_saved(
            old(writer).bytes(),
            old(writer).position() as int,
            header,
            content@,
            instruction_count,
        ) && final(writer).position() == old(writer).position() + 40,
        r is Err ==> final(writer).bytes() == old(writer).bytes() && final(writer).position()
            == old(writer).position(),
{
    if header.content_format == DataFormatType::Unknown {
        return Err(StorageError::Header(HeaderError::InvalidContentFormat(header.content_format.tag())));
    }
    let ghost given = header;
    let header_len: u64 = header.num_all_fields_bytes();
    let start_pos: u64 = writer.stream_position();
    let content_len: usize = content.len();
    if start_pos > usize::MAX as u64 - header_len || content_len > usize::MAX - (start_pos
        + header_len) as usize {
        return Err(StorageError::Io(IoError::OutOfRange));
    }
    match writer.seek(start_pos + header_len) {
        Ok(_) => {},
        Err(e) => {
            return Err(StorageError::Io(e));
        },
    }
    match writer.write_all(content) {
        Ok(()) => {},
        Err(e) => {
            return Err(StorageError::Io(e));
        },
    }
    let content_end_pos: u64 = writer.stream_position();
    let mut header = header;
    header.content_length = content_end_pos - start_pos - header_len;
    header.pre_upgrade_instruction_count = instruction_count;
    match writer.seek(start_pos) {
        Ok(_) => {},
        Err(e) => {
            return Err(StorageError::Io(e));
        },
    }
    assert(header.spec_as_bytes() == spec_saved_header(
        given,
        content@.len(),
        instruction_count,
    ).spec_as_bytes());
    match header.write(writer) {
        Ok(()) => Ok(()),
        Err(e) => Err(StorageError::Header(e)),
    }
}

/// Serialize using v2 layout
///
/// Nothing is written where `transient` says that the next save is to be skipped. Otherwise
/// the value is encoded in the format that `header` names, the instruction counter is
/// observed, and header and content are written at the writer's position.
pub fn save<I: Interface, T: serde::Serialize>(
    interface: &I,
    writer: &mut MovableWriter,
    t: &T,
    header: Header,
    transient: &Transient,
) -> (r: Result<(), StorageError>)
    ensures
        transient.skip_next_save ==> r is Ok && final(writer).bytes() == old(writer).bytes()
            && final(writer).position() == old(writer).position(),
        !transient.skip_next_save && header.content_format == DataFormatType::Unknown ==> r is Err
            && r->Err_0 == StorageError::Header(HeaderError::InvalidContentFormat(0)),
        !transient.skip_next_save && r is Ok ==> exists|content: Seq<u8>, instruction_count: u64|
            #![trigger spec_saved(old(writer).bytes(), old(writer).position() as int, header, content, instruction_count)]
            final(writer).bytes() == spec_saved(
                old(writer).bytes(),
                old(writer).position() as int,
                header,
                content,
                instruction_count,
            ) && old(writer).position() + 40 + content.len() <= usize::MAX,
        !transient.skip_next_save && r is Ok ==> final(writer).position() == old(writer).position()
            + 40,
        !transient.skip_next_save && header.content_format != DataFormatType::Unknown && r is Err
            ==> r->Err_0 == StorageError::Io(IoError::OutOfRange) || match header.content_format {
            DataFormatType::MsgPack => r->Err_0 is MsgPackEncodeError,
            DataFormatType::Bincode => r->Err_0 is BincodeError,
            DataFormatType::Unknown => false,
        },
        r is Err ==> final(writer).bytes() == old(writer).bytes() && final(writer).position()
            == old(writer).position(),
{
    if transient.skip_next_save {
        Ok(())
    } else {
        let content = match header.content_format.serde_serialize_bytes(t) {
            Ok(content) => content,
            Err(e) => {
                return Err(e);
            },
        };
        let instruction_count = interface.instruction_counter();
        save_content(writer, content.as_slice(), header, instruction_count)
    }
}

/// The declared and the decoded content length, where they differ.
pub open spec fn spec_content_length_mismatch(header: Header, content_length: u64) -> Option<
    (u64, u64),
> {
    if content_length != header.content_length {
        Some((header.content_length, content_length))
    } else {
        None
    }
}

/// Compare the content length that the header declares with the number of bytes that decoding
/// the content consumed. A difference is reported as (expected, actual) and fails nothing.
pub fn content_length_mismatch(header: &Header, content_length: u64) -> (r: Option<(u64, u64)>)
    ensures
        r == spec_content_length_mismatch(*header, content_length),
{
    if content_length != header.content_length {
        Some((header.content_length, content_length))
    } else {
        None
    }
}

/// What a restore returns once the header has been read and the content decoder has
/// answered: the decoded value with the header as it was read, or the decoder's error. A
/// header that declares another content length than the `content_length` bytes that the
/// decoder consumed fails nothing: the difference is reported beside the value.
pub fn complete_restore<T>(
    header: Header,
    decoded: Result<T, StorageError>,
    content_length: u64,
    instruction_count: u64,
) -> (r: Result<(Header, Transient, T, Option<(u64, u64)>), StorageError>)
    ensures
        decoded is Ok ==> r is Ok && r->Ok_0.0 == header && r->Ok_0.1 == (Transient {
            skip_next_save: false,
            post_upgrade_instruction_count: instruction_count,
        }) && r->Ok_0.2 == decoded->Ok_0 && r->Ok_0.3 == spec_content_length_mismatch(
            header,
            content_length,
        ),
        decoded is Err ==> r is Err && r->Err_0 == decoded->Err_0,
{
    match decoded {
        Ok(t) => Ok(
            (
                header,
                Transient::after_restore(instruction_count),
                t,
                content_length_mismatch(&header, content_length),
            ),
        ),
        Err(e) => Err(e),
    }
}

/// Deserialize from stable storage using v2 layout
///
/// The header is read first and its schema version handed to `publish_version`, before any
/// content is decoded. The content is then decoded in the format that the header names.
/// Beside the header, a fresh transient state and the value, the restore reports the
/// declared and the decoded content length where they differ.
pub fn restore<I: Interface, T: serde::de::DeserializeOwned, P: FnOnce(u64)>(
    interface: &I,
    reader: &mut MovableReader,
    publish_version: P,
) -> (r: Result<(Header, Transient, T, Option<(u64, u64)>), StorageError>)
    requires
        forall|version: u64| publish_version.requires((version,)),
    ensures
        final(reader).bytes() == old(reader).bytes(),
        spec_decode(old(reader).unread()) is Ok ==> call_ensures(
            publish_version,
            (spec_decode(old(reader).unread())->Ok_0.content_schema_version,),
            (),
        ),
        spec_decode(old(reader).unread()) is Err ==> r is Err && r->Err_0 == StorageError::Header(
            spec_decode(old(reader).unread())->Err_0,
        ) && final(reader).position() == old(reader).position() + spec_decode_consumed(
            old(reader).unread(),
        ),
        spec_decode(old(reader).unread()) is Ok && r is Ok ==> r->Ok_0.0 == spec_decode(
            old(reader).unread(),
        )->Ok_0 && !r->Ok_0.1.skip_next_save && old(reader).position() + spec_decode_consumed(
            old(reader).unread(),
        ) <= final(reader).position() <= old(reader).bytes().len() && r->Ok_0.3
            == spec_content_length_mismatch(
            r->Ok_0.0,
            (final(reader).position() - old(reader).position() - spec_decode_consumed(
                old(reader).unread(),
            )) as u64,
        ),
        spec_decode(old(reader).unread()) is Ok && r is Err ==> final(reader).position() == old(reader).position() + spec_decode_consumed(old(reader).unread()) && (match spec_decode(
            old(reader).unread(),
        )->Ok_0.content_format {
            DataFormatType::MsgPack => r->Err_0 is MsgPackDecodeError,
            DataFormatType::Bincode => r->Err_0 is BincodeError,
            DataFormatType::Unknown => false,
        }),
{
    let header = match Header::new_from_reader(reader) {
        Ok(header) => header,
        Err(e) => {
            return Err(StorageError::Header(e));
        },
    };
    publish_version(header.content_schema_version);
    let content_start_pos: u64 = reader.stream_position();
    let decoded = header.content_format.serde_deserialize::<T>(reader);
    let content_end_pos: u64 = reader.stream_position();
    let content_length: u64 = if content_end_pos >= content_start_pos {
        content_end_pos - content_start_pos
    } else {
        0
    };
    let instruction_count = interface.instruction_counter();
    complete_restore(header, decoded, content_length, instruction_count)
}

/// A saved region reads back: from where the save began, the header decodes to the one that
/// was written, with the length of the content as its content length, and the content stands
/// right behind its forty bytes.
pub proof fn lemma_saved_region_reads_back(
    region: Seq<u8>,
    start: nat,
    header: Header,
    content: Seq<u8>,
    instruction_count: u64,
)
    requires
        header.content_format != DataFormatType::Unknown,
        content.len() <= u64::MAX,
    ensures
        ({
            let saved = spec_saved(region, start as int, header, content, instruction_count);
            let written = spec_saved_header(header, content.len(), instruction_count);
            &&& written.content_length == content.len()
            &&& spec_decode(unread_from(saved, start)) == Ok::<Header, HeaderError>(written)
            &&& spec_decode_consumed(unread_from(saved, start)) == 40
            &&& unread_from(saved, start + 40).take(content.len() as int) == content
        }),
{
    let written = spec_saved_header(header, content.len(), instruction_count);
    let head = written.spec_as_bytes();
    lemma_encoded_len(written);
    let with_content = write_at(region, start as int + 40, content);
    let saved = write_at(with_content, start as int, head);
    assert(saved.len() == with_content.len());
    let rest = saved.subrange(start as int + 40, saved.len() as int);
    assert(unread_from(saved, start) =~= head + rest);
    lemma_decode_encode(written, rest);
    assert(unread_from(saved, start + 40).take(content.len() as int) =~= content);
}

} // verus!
