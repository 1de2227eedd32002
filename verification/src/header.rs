//! Header for stable storage.
//!
//! The header is a run of little-endian `u64` words: first the number of words that follow,
//! then the content length, the content format, the schema version of the content and the
//! instruction count of the save that wrote it.

use crate::data_format::DataFormatType;
use crate::movable_io::{write_at, IoError, MovableReader, MovableWriter};
use vstd::bytes::{
    lemma_auto_spec_u64_to_from_le_bytes, spec_u64_from_le_bytes, spec_u64_to_le_bytes,
    u64_from_le_bytes, u64_to_le_bytes,
};
use vstd::prelude::*;
use vstd::string::StringExecFns;

verus! {

/// Number of words that follow the length word in a header written by this version.
pub const NUM_FIELDS: u64 = 4;

/// Size of one header word in bytes.
pub const U64_SIZE: usize = 8;

/// Index of the content length among the words that follow the length word.
pub const CONTENT_LENGTH_INDEX: usize = 0;

/// Index of the content format among the words that follow the length word.
pub const CONTENT_FORMAT_INDEX: usize = 1;

/// Index of the schema version among the words that follow the length word.
pub const CONTENT_SCHEMA_VERSION_INDEX: usize = 2;

/// Index of the instruction count among the words that follow the length word.
pub const PRE_UPGRADE_INSTRUCTION_COUNT_INDEX: usize = 3;

/// Errors related to serializing and deserializing the header.
#[derive(Debug, Clone, Copy, PartialEq, Eq, Structural)]
pub enum HeaderError {
    /// The format word stands for no known format; it is held here.
    InvalidContentFormat(u64),
    /// The region ended inside the header, or could not be addressed.
    Io(IoError),
    /// The header declares more words than this version knows: declared, known.
    InvalidHeaderLength(u64, u64),
}

/// The header contains the information that is needed to read the content back.
#[derive(Debug, Clone, Copy, PartialEq, Eq, Structural)]
pub struct Header {
    /// Number of words that follow the length word
    pub header_length: u64,
    /// Length of the content
    pub content_length: u64,
    /// Format of the content
    pub content_format: DataFormatType,
    /// Schema version of the content
    pub content_schema_version: u64,
    /// Number of instructions used for pre-upgrade
    pub pre_upgrade_instruction_count: u64,
}

/// The first `count` little-endian words of `bytes`.
pub open spec fn spec_words(bytes: Seq<u8>, count: nat) -> Seq<u64> {
    Seq::new(count, |i: int| spec_u64_from_le_bytes(bytes.subrange(8 * i, 8 * i + 8)))
}

/// The word at `index`, or zero where the header was written without it.
pub open spec fn field_or_zero(fields: Seq<u64>, index: int) -> u64 {
    if 0 <= index < fields.len() {
        fields[index]
    } else {
        0
    }
}

/// The header that the words after the length word stand for.
pub open spec fn spec_from_fields(fields: Seq<u64>) -> Result<Header, HeaderError> {
    let tag = field_or_zero(fields, CONTENT_FORMAT_INDEX as int);
    if DataFormatType::spec_from_tag(tag) == DataFormatType::Unknown {
        Err(HeaderError::InvalidContentFormat(tag))
    } else {
        Ok(
            Header {
                header_length: fields.len() as u64,
                content_length: field_or_zero(fields, CONTENT_LENGTH_INDEX as int),
                content_format: DataFormatType::spec_from_tag(tag),
                content_schema_version: field_or_zero(fields, CONTENT_SCHEMA_VERSION_INDEX as int),
                pre_upgrade_instruction_count: field_or_zero(
                    fields,
                    PRE_UPGRADE_INSTRUCTION_COUNT_INDEX as int,
                ),
            },
        )
    }
}

/// The number of words that a header declaring `declared` words is read with.
pub open spec fn spec_declared_fields(declared: u64) -> Result<usize, HeaderError> {
    if declared > NUM_FIELDS {
        Err(HeaderError::InvalidHeaderLength(declared, NUM_FIELDS))
    } else {
        Ok(declared as usize)
    }
}

/// What decoding a header from the start of `bytes` gives.
pub open spec fn spec_decode(bytes: Seq<u8>) -> Result<Header, HeaderError> {
    if bytes.len() < 8 {
        Err(HeaderError::Io(IoError::UnexpectedEof))
    } else {
        let declared = spec_u64_from_le_bytes(bytes.subrange(0, 8));
        if declared > NUM_FIELDS {
            Err(HeaderError::InvalidHeaderLength(declared, NUM_FIELDS))
        } else if bytes.len() < 8 + 8 * declared {
            Err(HeaderError::Io(IoError::UnexpectedEof))
        } else {
            spec_from_fields(spec_words(bytes.skip(8), declared as nat))
        }
    }
}

/// How many bytes decoding a header from the start of `bytes` moves past.
pub open spec fn spec_decode_consumed(bytes: Seq<u8>) -> nat {
    if bytes.len() < 8 {
        0
    } else {
        let declared = spec_u64_from_le_bytes(bytes.subrange(0, 8));
        if declared > NUM_FIELDS || bytes.len() < 8 + 8 * declared {
            8
        } else {
            (8 + 8 * declared) as nat
        }
    }
}

impl Header {
    /// The bytes that this header is written as.
    pub open spec fn spec_as_bytes(self) -> Seq<u8> {
        spec_u64_to_le_bytes(NUM_FIELDS) + spec_u64_to_le_bytes(self.content_length)
            + spec_u64_to_le_bytes(self.content_format.spec_tag()) + spec_u64_to_le_bytes(
            self.content_schema_version,
        ) + spec_u64_to_le_bytes(self.pre_upgrade_instruction_count)
    }

    /// A header as this version writes it: all words declared, and a known format.
    pub open spec fn is_valid(self) -> bool {
        self.header_length == NUM_FIELDS && self.content_format != DataFormatType::Unknown
    }

    /// The size of the region that header and content take together.
    pub open spec fn spec_num_content_and_header_bytes(self) -> int {
        self.header_length * 8 + 8 + self.content_length
    }

    /// Create a header with format and schema version
    pub fn new_from_format_and_schema(format: DataFormatType, schema_version: u64) -> (r: Self)
        ensures
            r == (Header {
                header_length: NUM_FIELDS,
                content_length: 0,
                content_format: format,
                content_schema_version: schema_version,
                pre_upgrade_instruction_count: 0,
            }),
    {
        Header {
            header_length: NUM_FIELDS,
            content_length: 0,
            content_format: format,
            content_schema_version: schema_version,
            pre_upgrade_instruction_count: 0,
        }
    }

    /// The number of words to read after a length word that holds `declared`.
    pub fn declared_fields(declared: u64) -> (r: Result<usize, HeaderError>)
        ensures
            r == spec_declared_fields(declared),
    {
        if declared > NUM_FIELDS {
            Err(HeaderError::InvalidHeaderLength(declared, NUM_FIELDS))
        } else {
            Ok(declared as usize)
        }
    }

    /// Create a header from a reader
    pub fn new_from_reader(reader: &mut MovableReader) -> (r: Result<Self, HeaderError>)
        ensures
            r == spec_decode(old(reader).unread()),
            final(reader).bytes() == old(reader).bytes(),
            final(reader).position() == old(reader).position() + spec_decode_consumed(
                old(reader).unread(),
            ),
            r is Ok ==> final(reader).position() == old(reader).position() + 8 + 8
                * r->Ok_0.header_length,
    {
        let ghost unread = reader.unread();
        let header_length = match Self::read_u64(reader) {
            Ok(v) => v,
            Err(e) => {
                return Err(HeaderError::Io(e));
            },
        };
        assert(unread.take(8) == unread.subrange(0, 8));
        let count = match Self::declared_fields(header_length) {
            Ok(c) => c,
            Err(e) => {
                return Err(e);
            },
        };
        assert(reader.unread() == unread.skip(8));
        let fields = match Self::read_n_u64(reader, count) {
            Ok(f) => f,
            Err(e) => {
                return Err(HeaderError::Io(e));
            },
        };
        proof {
            lemma_words_of_prefix(unread.skip(8), 8 * count as nat, count as nat);
        }
        Self::new_from_vec(fields)
    }

    /// The number of bytes that follow the length word of a header, from the eight bytes of
    /// the length word.
    pub fn bytes_to_follow(length_word: &[u8]) -> (r: Result<usize, HeaderError>)
        ensures
            length_word@.len() != 8 ==> r == Err::<usize, HeaderError>(
                HeaderError::Io(IoError::UnexpectedEof),
            ),
            length_word@.len() == 8 ==> r == match spec_declared_fields(
                spec_u64_from_le_bytes(length_word@),
            ) {
                Ok(count) => Ok::<usize, HeaderError>((8 * count) as usize),
                Err(e) => Err(e),
            },
    {
        if length_word.len() != U64_SIZE {
            return Err(HeaderError::Io(IoError::UnexpectedEof));
        }
        match Self::declared_fields(u64_from_le_bytes(length_word)) {
            Ok(count) => Ok(count * U64_SIZE),
            Err(e) => Err(e),
        }
    }

    /// Create a header from the eight bytes of its length word and the bytes that follow it:
    /// the header that a reader gives for the two, one after the other.
    pub fn new_from_parts(length_word: &[u8], following: &[u8]) -> (r: Result<Self, HeaderError>)
        ensures
            r == spec_decode(length_word@ + following@),
    {
        let mut bytes: Vec<u8> = Vec::new();
        bytes.extend_from_slice(length_word);
        bytes.extend_from_slice(following);
        assert(bytes@ =~= length_word@ + following@);
        let mut reader = MovableReader::new(bytes.as_slice());
        Self::new_from_reader(&mut reader)
    }

    /// Create a header from the words that follow the length word
    pub fn new_from_vec(fields: Vec<u64>) -> (r: Result<Self, HeaderError>)
        ensures
            r == spec_from_fields(fields@),
    {
        let tag = Self::word_or_zero(&fields, CONTENT_FORMAT_INDEX);
        let content_format = DataFormatType::from(tag);
        if content_format == DataFormatType::Unknown {
            return Err(HeaderError::InvalidContentFormat(tag));
        }
        Ok(
            Header {
                header_length: fields.len() as u64,
                content_length: Self::word_or_zero(&fields, CONTENT_LENGTH_INDEX),
                content_format,
                content_schema_version: Self::word_or_zero(&fields, CONTENT_SCHEMA_VERSION_INDEX),
                pre_upgrade_instruction_count: Self::word_or_zero(
                    &fields,
                    PRE_UPGRADE_INSTRUCTION_COUNT_INDEX,
                ),
            },
        )
    }

    fn word_or_zero(fields: &Vec<u64>, index: usize) -> (r: u64)
        ensures
            r == field_or_zero(fields@, index as int),
    {
        if index < fields.len() {
            fields[index]
        } else {
            0
        }
    }

    /// Write the header
    pub fn write(&self, writer: &mut MovableWriter) -> (r: Result<(), HeaderError>)
        ensures
            old(writer).position() + 40 <= usize::MAX ==> r is Ok && final(writer).bytes()
                == write_at(
                old(writer).bytes(),
                old(writer).position() as int,
                self.spec_as_bytes(),
            ) && final(writer).position() == old(writer).position() + 40,
            old(writer).position() + 40 > usize::MAX ==> r == Err::<(), HeaderError>(
                HeaderError::Io(IoError::OutOfRange),
            ) && final(writer).bytes() == old(writer).bytes() && final(writer).position() == old(writer).position(),
    {
        let bytes = self.as_bytes();
        match writer.write_all(bytes.as_slice()) {
            Ok(()) => Ok(()),
            Err(e) => Err(HeaderError::Io(e)),
        }
    }

    /// Return the number of bytes needed by all fields of the header
    pub fn num_all_fields_bytes(&self) -> (r: u64)
        ensures
            r == 40,
            r == (NUM_FIELDS + 1) * 8,
    {
        (NUM_FIELDS + 1) * (U64_SIZE as u64)
    }

    /// Return the number of bytes needed by both the header and content
    pub fn num_content_and_header_bytes(&self) -> (r: u64)
        requires
            self.spec_num_content_and_header_bytes() <= u64::MAX,
        ensures
            r == self.spec_num_content_and_header_bytes(),
    {
        self.header_length * (U64_SIZE as u64) + (U64_SIZE as u64) + self.content_length
    }

    /// The number of bytes needed by both the header and content, where a `u64` holds it.
    pub fn checked_num_content_and_header_bytes(&self) -> (r: Option<u64>)
        ensures
            self.spec_num_content_and_header_bytes() <= u64::MAX ==> r == Some(
                self.spec_num_content_and_header_bytes() as u64,
            ),
            self.spec_num_content_and_header_bytes() > u64::MAX ==> r.is_none(),
    {
        if self.header_length > (u64::MAX - 8) / 8 {
            return None;
        }
        let head: u64 = self.header_length * 8 + 8;
        if self.content_length > u64::MAX - head {
            None
        } else {
            Some(head + self.content_length)
        }
    }

    /// Read a single little-endian word from a reader
    pub fn read_u64(reader: &mut MovableReader) -> (r: Result<u64, IoError>)
        ensures
            final(reader).bytes() == old(reader).bytes(),
            old(reader).unread().len() >= 8 ==> r == Ok::<u64, IoError>(
                spec_u64_from_le_bytes(old(reader).unread().take(8)),
            ) && final(reader).position() == old(reader).position() + 8,
            old(reader).unread().len() < 8 ==> r == Err::<u64, IoError>(IoError::UnexpectedEof)
                && final(reader).position() == old(reader).position(),
    {
        match reader.read_exact(U64_SIZE) {
            Ok(bytes) => Ok(u64_from_le_bytes(bytes.as_slice())),
            Err(e) => Err(e),
        }
    }

    /// Read the next `count` little-endian words from a reader
    pub fn read_n_u64(reader: &mut MovableReader, count: usize) -> (r: Result<Vec<u64>, IoError>)
        requires
            count * 8 <= usize::MAX,
        ensures
            final(reader).bytes() == old(reader).bytes(),
            old(reader).unread().len() >= 8 * count ==> r is Ok && r->Ok_0@ == spec_words(
                old(reader).unread().take(8 * count),
                count as nat,
            ) && final(reader).position() == old(reader).position() + 8 * count,
            old(reader).unread().len() < 8 * count ==> r == Err::<Vec<u64>, IoError>(
                IoError::UnexpectedEof,
            ) && final(reader).position() == old(reader).position(),
    {
        match reader.read_exact(count * U64_SIZE) {
            Ok(bytes) => Ok(Self::bytes_to_u64(bytes.as_slice(), count)),
            Err(e) => Err(e),
        }
    }

    /// The first `count` little-endian words of `bytes`
    pub fn bytes_to_u64(bytes: &[u8], count: usize) -> (r: Vec<u64>)
        requires
            8 * count <= bytes@.len(),
        ensures
            r@ == spec_words(bytes@, count as nat),
    {
        let len: usize = bytes.len();
        let mut words: Vec<u64> = Vec::with_capacity(count);
        let mut i: usize = 0;
        while i < count
            invariant
                i <= count,
                len == bytes@.len(),
                8 * count <= len,
                words@ == spec_words(bytes@, i as nat),
            decreases count - i,
        {
            let word = u64_from_le_bytes(vstd::slice::slice_subrange(bytes, i * 8, i * 8 + 8));
            words.push(word);
            i = i + 1;
            assert(words@ =~= spec_words(bytes@, i as nat));
        }
        words
    }

    /// Return the header as bytes
    pub fn as_bytes(&self) -> (bytes: Vec<u8>)
        ensures
            bytes@ == self.spec_as_bytes(),
            bytes@.len() == 40,
    {
        let mut bytes = u64_to_le_bytes(NUM_FIELDS);
        let mut word = u64_to_le_bytes(self.content_length);
        bytes.append(&mut word);
        let mut word = u64_to_le_bytes(self.content_format.tag());
        bytes.append(&mut word);
        let mut word = u64_to_le_bytes(self.content_schema_version);
        bytes.append(&mut word);
        let mut word = u64_to_le_bytes(self.pre_upgrade_instruction_count);
        bytes.append(&mut word);
        bytes
    }
}

impl Default for Header {
    fn default() -> (r: Self)
        ensures
            r == (Header {
                header_length: 0,
                content_length: 0,
                content_format: DataFormatType::Unknown,
                content_schema_version: 0,
                pre_upgrade_instruction_count: 0,
            }),
    {
        Header {
            header_length: 0,
            content_length: 0,
            content_format: DataFormatType::Unknown,
            content_schema_version: 0,
            pre_upgrade_instruction_count: 0,
        }
    }
}

/// The words of a region are those of any prefix that holds them all.
pub proof fn lemma_words_of_prefix(bytes: Seq<u8>, len: nat, count: nat)
    requires
        8 * count <= len <= bytes.len(),
    ensures
        spec_words(bytes.take(len as int), count) == spec_words(bytes, count),
{
    let prefix = bytes.take(len as int);
    assert forall|i: int| 0 <= i < count implies #[trigger] spec_words(prefix, count)[i]
        == spec_words(bytes, count)[i] by {
        assert(prefix.subrange(8 * i, 8 * i + 8) =~= bytes.subrange(8 * i, 8 * i + 8));
    }
    assert(spec_words(prefix, count) =~= spec_words(bytes, count));
}

/// A header is written as five words, forty bytes.
pub proof fn lemma_encoded_len(header: Header)
    ensures
        header.spec_as_bytes().len() == 40,
{
    lemma_auto_spec_u64_to_from_le_bytes();
}

/// Decoding what a valid header was written as gives the header back, whatever follows it,
/// and moves past exactly its forty bytes.
pub proof fn lemma_decode_encode(header: Header, rest: Seq<u8>)
    requires
        header.is_valid(),
    ensures
        spec_decode(header.spec_as_bytes() + rest) == Ok::<Header, HeaderError>(header),
        spec_decode_consumed(header.spec_as_bytes() + rest) == 40,
{
    lemma_auto_spec_u64_to_from_le_bytes();
    let w0 = spec_u64_to_le_bytes(NUM_FIELDS);
    let w1 = spec_u64_to_le_bytes(header.content_length);
    let w2 = spec_u64_to_le_bytes(header.content_format.spec_tag());
    let w3 = spec_u64_to_le_bytes(header.content_schema_version);
    let w4 = spec_u64_to_le_bytes(header.pre_upgrade_instruction_count);
    let bytes = header.spec_as_bytes() + rest;
    assert(bytes.subrange(0, 8) =~= w0);
    let tail = bytes.skip(8);
    assert(tail.subrange(0, 8) =~= w1);
    assert(tail.subrange(8, 16) =~= w2);
    assert(tail.subrange(16, 24) =~= w3);
    assert(tail.subrange(24, 32) =~= w4);
    let fields = spec_words(tail, 4);
    assert(fields[0] == header.content_length);
    assert(fields[1] == header.content_format.spec_tag());
    assert(fields[2] == header.content_schema_version);
    assert(fields[3] == header.pre_upgrade_instruction_count);
    crate::data_format::lemma_tag_roundtrip(header.content_format);
}

/// Decoding a header looks at the bytes that it moves past and at no others: the bytes up
/// to there, read on their own, give the same header or the same error.
pub proof fn lemma_decode_of_what_was_consumed(bytes: Seq<u8>)
    ensures
        spec_decode(bytes.take(spec_decode_consumed(bytes) as int)) == spec_decode(bytes),
{
    let consumed = spec_decode_consumed(bytes);
    let prefix = bytes.take(consumed as int);
    if bytes.len() >= 8 {
        assert(prefix.subrange(0, 8) =~= bytes.subrange(0, 8));
        let declared = spec_u64_from_le_bytes(bytes.subrange(0, 8));
        if declared <= NUM_FIELDS && bytes.len() >= 8 + 8 * declared {
            assert(prefix.skip(8) =~= bytes.skip(8).take(8 * declared));
            lemma_words_of_prefix(bytes.skip(8), (8 * declared) as nat, declared as nat);
        }
    }
}

/// A header that declares more words than this version knows is rejected.
pub proof fn lemma_decode_rejects_long_header(bytes: Seq<u8>)
    requires
        bytes.len() >= 8,
        spec_u64_from_le_bytes(bytes.subrange(0, 8)) > NUM_FIELDS,
    ensures
        spec_decode(bytes) == Err::<Header, HeaderError>(
            HeaderError::InvalidHeaderLength(
                spec_u64_from_le_bytes(bytes.subrange(0, 8)),
                NUM_FIELDS,
            ),
        ),
{
}

impl HeaderError {
    /// The text of this error.
    pub open spec fn spec_to_string(self) -> Seq<char> {
        match self {
            HeaderError::InvalidContentFormat(tag) => "Invalid content format "@
                + crate::text::spec_decimal(tag as nat),
            HeaderError::Io(IoError::UnexpectedEof) => "IO error failed to fill whole buffer"@,
            HeaderError::Io(IoError::OutOfRange) =>
                "IO error invalid seek to a negative or overflowing position"@,
            HeaderError::InvalidHeaderLength(declared, known) => "Invalid header length "@
                + crate::text::spec_decimal(declared as nat) + " expecting "@
                + crate::text::spec_decimal(known as nat),
        }
    }

    /// The text of this error.
    pub fn to_string(&self) -> (text: String)
        ensures
            text@ == self.spec_to_string(),
    {
        match self {
            HeaderError::InvalidContentFormat(tag) => {
                let mut text = String::from_str("Invalid content format ");
                crate::text::push_decimal(&mut text, *tag);
                text
            },
            HeaderError::Io(IoError::UnexpectedEof) => String::from_str(
                "IO error failed to fill whole buffer",
            ),
            HeaderError::Io(IoError::OutOfRange) => String::from_str(
                "IO error invalid seek to a negative or overflowing position",
            ),
            HeaderError::InvalidHeaderLength(declared, known) => {
                let mut text = String::from_str("Invalid header length ");
                crate::text::push_decimal(&mut text, *declared);
                text.append(" expecting ");
                crate::text::push_decimal(&mut text, *known);
                text
            },
        }
    }
}

} // verus!
