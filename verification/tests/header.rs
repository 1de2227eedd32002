use ic_canister_stable_storage::data_format::DataFormatType;
use ic_canister_stable_storage::header::{Header, HeaderError, NUM_FIELDS, U64_SIZE};
use ic_canister_stable_storage::movable_io::{IoError, MovableReader, MovableWriter};

fn sample() -> Header {
    Header {
        header_length: NUM_FIELDS,
        content_length: 100,
        content_format: DataFormatType::MsgPack,
        content_schema_version: 10,
        pre_upgrade_instruction_count: 100,
    }
}

#[test]
fn test_roundtrip() {
    let header = sample();

    let mut writer = MovableWriter::new(vec![]);
    header.write(&mut writer).unwrap();
    let bytes = writer.into_inner();

    assert_eq!(bytes.len(), U64_SIZE * 5);

    let roundtrip_header = Header::new_from_reader(&mut MovableReader::new(bytes.as_slice())).unwrap();
    assert_eq!(header, roundtrip_header);

    assert_eq!(
        header.num_content_and_header_bytes(),
        bytes.len() as u64 + header.content_length,
    );
}

#[test]
fn header_bytes_are_little_endian_words_in_field_order() {
    let header = Header {
        header_length: NUM_FIELDS,
        content_length: 0x0102,
        content_format: DataFormatType::Bincode,
        content_schema_version: 7,
        pre_upgrade_instruction_count: u64::MAX,
    };
    let bytes = header.as_bytes();
    let mut expected: Vec<u8> = Vec::new();
    expected.extend_from_slice(&[4, 0, 0, 0, 0, 0, 0, 0]);
    expected.extend_from_slice(&[2, 1, 0, 0, 0, 0, 0, 0]);
    expected.extend_from_slice(&[2, 0, 0, 0, 0, 0, 0, 0]);
    expected.extend_from_slice(&[7, 0, 0, 0, 0, 0, 0, 0]);
    expected.extend_from_slice(&[255; 8]);
    assert_eq!(bytes, expected);
    assert_eq!(header.num_all_fields_bytes(), 40);
}

#[test]
fn header_encodes_the_compiled_field_count_not_its_own() {
    let mut header = sample();
    header.header_length = 2;
    let bytes = header.as_bytes();
    assert_eq!(&bytes[0..8], &[4, 0, 0, 0, 0, 0, 0, 0]);
    let decoded = Header::new_from_reader(&mut MovableReader::new(bytes.as_slice())).unwrap();
    assert_eq!(decoded.header_length, 4);
    assert_eq!(decoded.content_length, 100);
}

#[test]
fn header_longer_than_known_is_rejected() {
    let mut bytes = sample().as_bytes();
    bytes[0] = 5;
    let mut reader = MovableReader::new(bytes.as_slice());
    let result = Header::new_from_reader(&mut reader);
    assert_eq!(result, Err(HeaderError::InvalidHeaderLength(5, 4)));
    assert_eq!(reader.stream_position(), 8);
}

#[test]
fn header_with_unknown_format_is_rejected_with_its_tag() {
    let mut bytes = sample().as_bytes();
    bytes[16] = 9;
    let result = Header::new_from_reader(&mut MovableReader::new(bytes.as_slice()));
    assert_eq!(result, Err(HeaderError::InvalidContentFormat(9)));
    bytes[16] = 0;
    let result = Header::new_from_reader(&mut MovableReader::new(bytes.as_slice()));
    assert_eq!(result, Err(HeaderError::InvalidContentFormat(0)));
}

#[test]
fn truncated_header_is_an_io_error() {
    let bytes = sample().as_bytes();
    let result = Header::new_from_reader(&mut MovableReader::new(&bytes[0..39]));
    assert_eq!(result, Err(HeaderError::Io(IoError::UnexpectedEof)));
    let result = Header::new_from_reader(&mut MovableReader::new(&bytes[0..7]));
    assert_eq!(result, Err(HeaderError::Io(IoError::UnexpectedEof)));
}

#[test]
fn shorter_header_reads_missing_words_as_zero() {
    let mut bytes: Vec<u8> = Vec::new();
    bytes.extend_from_slice(&2u64.to_le_bytes());
    bytes.extend_from_slice(&77u64.to_le_bytes());
    bytes.extend_from_slice(&1u64.to_le_bytes());
    bytes.extend_from_slice(&[9, 9, 9]);
    let mut reader = MovableReader::new(bytes.as_slice());
    let header = Header::new_from_reader(&mut reader).unwrap();
    assert_eq!(
        header,
        Header {
            header_length: 2,
            content_length: 77,
            content_format: DataFormatType::MsgPack,
            content_schema_version: 0,
            pre_upgrade_instruction_count: 0,
        }
    );
    assert_eq!(reader.stream_position(), 24);
    assert_eq!(header.num_content_and_header_bytes(), 2 * 8 + 8 + 77);
}

#[test]
fn header_without_a_format_word_is_rejected() {
    let bytes = 0u64.to_le_bytes();
    let result = Header::new_from_reader(&mut MovableReader::new(&bytes));
    assert_eq!(result, Err(HeaderError::InvalidContentFormat(0)));
}

#[test]
fn region_size_is_checked_where_it_may_not_fit() {
    let mut header = sample();
    assert_eq!(header.checked_num_content_and_header_bytes(), Some(140));
    header.content_length = u64::MAX - 39;
    assert_eq!(header.checked_num_content_and_header_bytes(), None);
    header.content_length = u64::MAX - 40;
    assert_eq!(header.checked_num_content_and_header_bytes(), Some(u64::MAX));
}

#[test]
fn format_numbers() {
    assert_eq!(DataFormatType::from(0), DataFormatType::Unknown);
    assert_eq!(DataFormatType::from(1), DataFormatType::MsgPack);
    assert_eq!(DataFormatType::from(2), DataFormatType::Bincode);
    assert_eq!(DataFormatType::from(3), DataFormatType::Unknown);
    assert_eq!(DataFormatType::Bincode.tag(), 2);
    assert_eq!(DataFormatType::default(), DataFormatType::Unknown);
    assert_eq!(Header::default().content_format, DataFormatType::Unknown);
    assert_eq!(
        Header::new_from_format_and_schema(DataFormatType::Bincode, 3),
        Header {
            header_length: 4,
            content_length: 0,
            content_format: DataFormatType::Bincode,
            content_schema_version: 3,
            pre_upgrade_instruction_count: 0,
        }
    );
}

#[test]
fn words_are_read_in_order() {
    let mut bytes: Vec<u8> = Vec::new();
    bytes.extend_from_slice(&1u64.to_le_bytes());
    bytes.extend_from_slice(&0x0807060504030201u64.to_le_bytes());
    assert_eq!(Header::bytes_to_u64(&bytes, 2), vec![1, 0x0807060504030201]);
    assert_eq!(Header::bytes_to_u64(&bytes, 1), vec![1]);
    let mut reader = MovableReader::new(bytes.as_slice());
    assert_eq!(Header::read_u64(&mut reader), Ok(1));
    assert_eq!(Header::read_n_u64(&mut reader, 1), Ok(vec![0x0807060504030201]));
    assert_eq!(Header::read_u64(&mut reader), Err(IoError::UnexpectedEof));
    assert_eq!(Header::declared_fields(4), Ok(4));
    assert_eq!(Header::declared_fields(5), Err(HeaderError::InvalidHeaderLength(5, 4)));
}

#[test]
fn a_header_is_read_in_two_parts() {
    let header = sample();
    let bytes = header.as_bytes();
    assert_eq!(Header::bytes_to_follow(&bytes[..8]), Ok(32));
    assert_eq!(Header::new_from_parts(&bytes[..8], &bytes[8..]), Ok(header));
    // the parts give what a reader gives for the two together
    let mut reader = MovableReader::new(&bytes);
    assert_eq!(
        Header::new_from_parts(&bytes[..8], &bytes[8..]),
        Header::new_from_reader(&mut reader)
    );
    // what follows the header in the stream changes nothing
    let mut stream = bytes.clone();
    stream.extend_from_slice(&[7; 11]);
    let mut reader = MovableReader::new(&stream);
    assert_eq!(Header::new_from_reader(&mut reader), Ok(header));
    assert_eq!(reader.stream_position(), 40);
    assert_eq!(Header::bytes_to_follow(&stream[..8]).unwrap() + 8, 40);
    assert_eq!(Header::bytes_to_follow(&0_u64.to_le_bytes()), Ok(0));
    assert_eq!(Header::bytes_to_follow(&3_u64.to_le_bytes()), Ok(24));
    assert_eq!(
        Header::bytes_to_follow(&5_u64.to_le_bytes()),
        Err(HeaderError::InvalidHeaderLength(5, 4))
    );
    assert_eq!(Header::bytes_to_follow(&bytes[..7]), Err(HeaderError::Io(IoError::UnexpectedEof)));
    assert_eq!(Header::bytes_to_follow(&bytes[..9]), Err(HeaderError::Io(IoError::UnexpectedEof)));
    assert_eq!(
        Header::new_from_parts(&bytes[..8], &bytes[8..39]),
        Err(HeaderError::Io(IoError::UnexpectedEof))
    );
    assert_eq!(
        Header::new_from_parts(&5_u64.to_le_bytes(), &bytes[8..]),
        Err(HeaderError::InvalidHeaderLength(5, 4))
    );
}
