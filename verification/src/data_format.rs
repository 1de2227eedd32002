//! The content formats and the codecs behind them.

use crate::header::HeaderError;
use crate::movable_io::{write_at, IoError, MovableReader, MovableWriter};
use crate::StorageError;
use vstd::prelude::*;
use vstd::std_specs::convert::FromSpecImpl;
use vstd::string::StringExecFns;

verus! {

/// The format in which the content of a stable storage region is encoded.
#[derive(Debug, Clone, Copy, PartialEq, Eq, Structural)]
pub enum DataFormatType {
    /// Unknown
    Unknown,
    /// MsgPack
    MsgPack,
    /// Bincode
    Bincode,
}

impl DataFormatType {
    /// The number that stands for this format in a header.
    pub open spec fn spec_tag(self) -> u64 {
        match self {
            DataFormatType::Unknown => 0,
            DataFormatType::MsgPack => 1,
            DataFormatType::Bincode => 2,
        }
    }

    /// The format that a header's number stands for; every other number is `Unknown`.
    pub open spec fn spec_from_tag(value: u64) -> DataFormatType {
        if value == 1 {
            DataFormatType::MsgPack
        } else if value == 2 {
            DataFormatType::Bincode
        } else {
            DataFormatType::Unknown
        }
    }

    /// The name of this format.
    pub fn to_string(&self) -> (text: String)
        ensures
            text@ == match *self {
                DataFormatType::Unknown => "Unknown"@,
                DataFormatType::MsgPack => "MsgPack"@,
                DataFormatType::Bincode => "Bincode"@,
            },
    {
        match self {
            DataFormatType::Unknown => String::from_str("Unknown"),
            DataFormatType::MsgPack => String::from_str("MsgPack"),
            DataFormatType::Bincode => String::from_str("Bincode"),
        }
    }

    /// The number that stands for this format in a header.
    pub fn tag(self) -> (r: u64)
        ensures
            r == self.spec_tag(),
    {
        match self {
            DataFormatType::Unknown => 0,
            DataFormatType::MsgPack => 1,
            DataFormatType::Bincode => 2,
        }
    }
}

/// The bytes that MessagePack encodes `t` as.
///
/// Calls `rmp_serde::encode::write` on an empty vector and hands the vector back. What it
/// holds is decided by the `Serialize` impl of `T`, so nothing is claimed of it.
#[verifier::external_body]
fn msgpack_encode<T: serde::Serialize>(t: &T) -> (r: Result<Vec<u8>, rmp_serde::encode::Error>) {
    let mut buffer: Vec<u8> = Vec::new();
    match rmp_serde::encode::write(&mut buffer, t) {
        Ok(()) => Ok(buffer),
        Err(e) => Err(e),
    }
}

/// The value that MessagePack decodes from the start of `bytes`, and how many bytes it read.
///
/// Calls `rmp_serde::decode::from_read` on a `std::io::Cursor` over `bytes`. The cursor never
/// moves past the end of the slice, which is all that is claimed.
#[verifier::external_body]
fn msgpack_decode<T: serde::de::DeserializeOwned>(bytes: &[u8]) -> (r: Result<
    (T, usize),
    rmp_serde::decode::Error,
>)
    ensures
        r is Ok ==> r->Ok_0.1 <= bytes@.len(),
{
    let mut cursor = std::io::Cursor::new(bytes);
    match rmp_serde::decode::from_read(&mut cursor) {
        Ok(t) => Ok((t, cursor.position() as usize)),
        Err(e) => Err(e),
    }
}

/// The bytes that bincode encodes `t` as.
///
/// Calls `bincode::serialize_into` on an empty vector and hands the vector back. What it
/// holds is decided by the `Serialize` impl of `T`, so nothing is claimed of it.
#[verifier::external_body]
fn bincode_encode<T: serde::Serialize>(t: &T) -> (r: Result<Vec<u8>, Box<bincode::ErrorKind>>) {
    let mut buffer: Vec<u8> = Vec::new();
    match bincode::serialize_into(&mut buffer, t) {
        Ok(()) => Ok(buffer),
        Err(e) => Err(e),
    }
}

/// The value that bincode decodes from the start of `bytes`, and how many bytes it read.
///
/// Calls `bincode::deserialize_from` on a `std::io::Cursor` over `bytes`. The cursor never
/// moves past the end of the slice, which is all that is claimed.
#[verifier::external_body]
fn bincode_decode<T: serde::de::DeserializeOwned>(bytes: &[u8]) -> (r: Result<
    (T, usize),
    Box<bincode::ErrorKind>,
>)
    ensures
        r is Ok ==> r->Ok_0.1 <= bytes@.len(),
{
    let mut cursor = std::io::Cursor::new(bytes);
    match bincode::deserialize_from(&mut cursor) {
        Ok(t) => Ok((t, cursor.position() as usize)),
        Err(e) => Err(e),
    }
}

/// Whether `after` is `before` with some content written at its position, and the position
/// moved past that content.
pub open spec fn wrote_content(before: &MovableWriter, after: &MovableWriter) -> bool {
    exists|content: Seq<u8>|
        #![trigger write_at(before.bytes(), before.position() as int, content)]
        after.bytes() == write_at(before.bytes(), before.position() as int, content)
            && after.position() == before.position() + content.len()
}

/// Whether `after` is `before` moved on over some of its unread bytes.
pub open spec fn read_content(before: &MovableReader, after: &MovableReader) -> bool {
    &&& after.bytes() == before.bytes()
    &&& before.position() <= after.position()
    &&& after.position() <= before.position() + before.unread().len()
}

/// Write encoded content at the writer's position.
pub fn write_encoded(writer: &mut MovableWriter, content: &[u8]) -> (r: Result<(), StorageError>)
    ensures
        old(writer).position() + content@.len() <= usize::MAX ==> r is Ok && final(writer).bytes()
            == write_at(old(writer).bytes(), old(writer).position() as int, content@) && final(writer).position() == old(writer).position() + content@.len(),
        old(writer).position() + content@.len() > usize::MAX ==> r is Err && r->Err_0
            == StorageError::Io(IoError::OutOfRange) && final(writer).bytes() == old(writer).bytes() && final(writer).position() == old(writer).position(),
        r is Ok ==> wrote_content(old(writer), final(writer)),
{
    match writer.write_all(content) {
        Ok(()) => Ok(()),
        Err(e) => Err(StorageError::Io(e)),
    }
}

/// What a decode returns once the codec has answered with a value and the number of bytes
/// that it read, or with an error: the value, with the reader moved past what was read, or
/// the error, with the reader as it was. A codec that says that it read more than was left
/// has not read from this reader: that is an error, too.
pub fn complete_decode<T>(reader: &mut MovableReader, decoded: Result<(T, usize), StorageError>) -> (r:
    Result<T, StorageError>)
    ensures
        final(reader).bytes() == old(reader).bytes(),
        decoded is Ok && decoded->Ok_0.1 <= old(reader).unread().len() ==> r is Ok && r->Ok_0
            == decoded->Ok_0.0 && final(reader).position() == old(reader).position()
            + decoded->Ok_0.1 && final(reader).unread() == old(reader).unread().skip(
            decoded->Ok_0.1 as int,
        ),
        decoded is Ok && decoded->Ok_0.1 > old(reader).unread().len() ==> r is Err && r->Err_0
            == StorageError::Io(IoError::UnexpectedEof) && final(reader).position() == old(reader).position(),
        decoded is Err ==> r is Err && r->Err_0 == decoded->Err_0 && final(reader).position()
            == old(reader).position(),
{
    match decoded {
        Ok((t, count)) => {
            if count > reader.as_unread_slice().len() {
                return Err(StorageError::Io(IoError::UnexpectedEof));
            }
            reader.consume(count);
            Ok(t)
        },
        Err(e) => Err(e),
    }
}

/// Adapter that defines a common interface for all serde formats for
/// serialization/deserialization
pub trait SerdeDataFormat {
    /// Serialize using a writer. On success the encoded value stands at the position the
    /// writer had and the writer has moved past it; on failure the writer is as it was.
    fn serialize<T: serde::Serialize>(writer: &mut MovableWriter, t: &T) -> (r: Result<
        (),
        StorageError,
    >)
        ensures
            r is Ok ==> wrote_content(old(writer), final(writer)),
            r is Err ==> final(writer).bytes() == old(writer).bytes() && final(writer).position()
                == old(writer).position(),
    ;

    /// Deserialize using a reader. On success the reader has moved past what was decoded; on
    /// failure the reader is as it was.
    fn deserialize<T: serde::de::DeserializeOwned>(reader: &mut MovableReader) -> (r: Result<
        T,
        StorageError,
    >)
        ensures
            r is Ok ==> read_content(old(reader), final(reader)),
            r is Err ==> final(reader).bytes() == old(reader).bytes() && final(reader).position()
                == old(reader).position(),
    ;

    /// The format type
    fn format_type() -> (r: DataFormatType)
        ensures
            r != DataFormatType::Unknown,
    ;
}

/// MsgPack adapter
pub struct MsgPackAdapter;

impl SerdeDataFormat for MsgPackAdapter {
    fn serialize<T: serde::Serialize>(writer: &mut MovableWriter, t: &T) -> (r: Result<
        (),
        StorageError,
    >)
        ensures
            r is Err ==> r->Err_0 is MsgPackEncodeError || r->Err_0 == StorageError::Io(
                IoError::OutOfRange,
            ),
    {
        match msgpack_encode(t) {
            Ok(content) => write_encoded(writer, content.as_slice()),
            Err(e) => Err(StorageError::MsgPackEncodeError(e)),
        }
    }

    fn deserialize<T: serde::de::DeserializeOwned>(reader: &mut MovableReader) -> (r: Result<
        T,
        StorageError,
    >)
        ensures
            r is Err ==> r->Err_0 is MsgPackDecodeError,
    {
        let decoded = match msgpack_decode::<T>(reader.as_unread_slice()) {
            Ok(read) => Ok(read),
            Err(e) => Err(StorageError::MsgPackDecodeError(e)),
        };
        complete_decode(reader, decoded)
    }

    fn format_type() -> (r: DataFormatType)
        ensures
            r == DataFormatType::MsgPack,
    {
        DataFormatType::MsgPack
    }
}

/// Bincode adapter
pub struct BincodeAdapter;

impl SerdeDataFormat for BincodeAdapter {
    fn serialize<T: serde::Serialize>(writer: &mut MovableWriter, t: &T) -> (r: Result<
        (),
        StorageError,
    >)
        ensures
            r is Err ==> r->Err_0 is BincodeError || r->Err_0 == StorageError::Io(
                IoError::OutOfRange,
            ),
    {
        match bincode_encode(t) {
            Ok(content) => write_encoded(writer, content.as_slice()),
            Err(e) => Err(StorageError::BincodeError(e)),
        }
    }

    fn deserialize<T: serde::de::DeserializeOwned>(reader: &mut MovableReader) -> (r: Result<
        T,
        StorageError,
    >)
        ensures
            r is Err ==> r->Err_0 is BincodeError,
    {
        let decoded = match bincode_decode::<T>(reader.as_unread_slice()) {
            Ok(read) => Ok(read),
            Err(e) => Err(StorageError::BincodeError(e)),
        };
        complete_decode(reader, decoded)
    }

    fn format_type() -> (r: DataFormatType)
        ensures
            r == DataFormatType::Bincode,
    {
        DataFormatType::Bincode
    }
}

impl DataFormatType {
    /// Deserialize a value in this format from a reader. `Unknown` decodes nothing.
    pub fn serde_deserialize<T: serde::de::DeserializeOwned>(
        &self,
        reader: &mut MovableReader,
    ) -> (r: Result<T, StorageError>)
        ensures
            *self == DataFormatType::Unknown ==> r is Err && r->Err_0 == StorageError::Header(
                HeaderError::InvalidContentFormat(0),
            ),
            *self == DataFormatType::MsgPack && r is Err ==> r->Err_0 is MsgPackDecodeError,
            *self == DataFormatType::Bincode && r is Err ==> r->Err_0 is BincodeError,
            r is Ok ==> read_content(old(reader), final(reader)),
            r is Err ==> final(reader).bytes() == old(reader).bytes() && final(reader).position()
                == old(reader).position(),
    {
        match self {
            DataFormatType::Bincode => BincodeAdapter::deserialize(reader),
            DataFormatType::MsgPack => MsgPackAdapter::deserialize(reader),
            DataFormatType::Unknown => Err(
                StorageError::Header(HeaderError::InvalidContentFormat(self.tag())),
            ),
        }
    }

    /// Deserialize a value in this format from the start of `bytes`.
    pub fn serde_deserialize_bytes<T: serde::de::DeserializeOwned>(&self, bytes: &[u8]) -> (r:
        Result<T, StorageError>)
        ensures
            *self == DataFormatType::Unknown ==> r is Err && r->Err_0 == StorageError::Header(
                HeaderError::InvalidContentFormat(0),
            ),
            *self == DataFormatType::MsgPack && r is Err ==> r->Err_0 is MsgPackDecodeError,
            *self == DataFormatType::Bincode && r is Err ==> r->Err_0 is BincodeError,
    {
        let mut reader = MovableReader::new(bytes);
        self.serde_deserialize(&mut reader)
    }

    /// Serialize a value in this format at the writer's position. `Unknown` encodes nothing.
    pub fn serde_serialize<T: serde::Serialize>(&self, writer: &mut MovableWriter, t: &T) -> (r:
        Result<(), StorageError>)
        ensures
            *self == DataFormatType::Unknown ==> r is Err && r->Err_0 == StorageError::Header(
                HeaderError::InvalidContentFormat(0),
            ),
            *self == DataFormatType::MsgPack && r is Err ==> r->Err_0 is MsgPackEncodeError
                || r->Err_0 == StorageError::Io(IoError::OutOfRange),
            *self == DataFormatType::Bincode && r is Err ==> r->Err_0 is BincodeError || r->Err_0
                == StorageError::Io(IoError::OutOfRange),
            r is Ok ==> wrote_content(old(writer), final(writer)),
            r is Err ==> final(writer).bytes() == old(writer).bytes() && final(writer).position()
                == old(writer).position(),
    {
        match self {
            DataFormatType::Bincode => BincodeAdapter::serialize(writer, t),
            DataFormatType::MsgPack => MsgPackAdapter::serialize(writer, t),
            DataFormatType::Unknown => Err(
                StorageError::Header(HeaderError::InvalidContentFormat(self.tag())),
            ),
        }
    }

    /// Serialize a value in this format into a fresh vector.
    pub fn serde_serialize_bytes<T: serde::Serialize>(&self, t: &T) -> (r: Result<
        Vec<u8>,
        StorageError,
    >)
        ensures
            *self == DataFormatType::Unknown ==> r is Err && r->Err_0 == StorageError::Header(
                HeaderError::InvalidContentFormat(0),
            ),
            *self == DataFormatType::MsgPack && r is Err ==> r->Err_0 is MsgPackEncodeError,
            *self == DataFormatType::Bincode && r is Err ==> r->Err_0 is BincodeError,
    {
        match self {
            DataFormatType::Bincode => match bincode_encode(t) {
                Ok(content) => Ok(content),
                Err(e) => Err(StorageError::BincodeError(e)),
            },
            DataFormatType::MsgPack => match msgpack_encode(t) {
                Ok(content) => Ok(content),
                Err(e) => Err(StorageError::MsgPackEncodeError(e)),
            },
            DataFormatType::Unknown => Err(
                StorageError::Header(HeaderError::InvalidContentFormat(self.tag())),
            ),
        }
    }
}

/// Every format is found again from its own number.
pub proof fn lemma_tag_roundtrip(format: DataFormatType)
    ensures
        DataFormatType::spec_from_tag(format.spec_tag()) == format,
{
}

impl Default for DataFormatType {
    fn default() -> (r: Self)
        ensures
            r == DataFormatType::Unknown,
    {
        DataFormatType::Unknown
    }
}

impl From<u64> for DataFormatType {
    fn from(value: u64) -> (r: Self) {
        if value == 1 {
            DataFormatType::MsgPack
        } else if value == 2 {
            DataFormatType::Bincode
        } else {
            DataFormatType::Unknown
        }
    }
}

impl FromSpecImpl<u64> for DataFormatType {
    open spec fn obeys_from_spec() -> bool {
        true
    }

    open spec fn from_spec(value: u64) -> Self {
        DataFormatType::spec_from_tag(value)
    }
}

} // verus!
