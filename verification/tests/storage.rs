use ic_canister_stable_storage::data_format::{
    complete_decode, BincodeAdapter, DataFormatType, MsgPackAdapter, SerdeDataFormat,
};
use candid::Principal;
use ic_canister_stable_storage::dscvr_interface::{
    management_canister, Edge, Interface, UnitTest,
};
use ic_canister_stable_storage::header::{Header, HeaderError};
use ic_canister_stable_storage::movable_io::{IoError, MovableReader, MovableWriter};
use ic_canister_stable_storage::transient::Transient;
use ic_canister_stable_storage::{v1, v2, StorageError, WASM_PAGE_SIZE_IN_BYTES};
use ic_cdk::api::call::RejectionCode;
use std::collections::HashMap;
use std::sync::atomic::AtomicU64;

// A system whose instruction counter reads a fixed value.
struct Counting(u64);

impl Interface for Counting {
    fn time(&self) -> u64 {
        0
    }

    fn caller(&self) -> Principal {
        Principal::anonymous()
    }

    fn canister_balance(&self) -> u64 {
        0
    }

    fn call_canister(
        &self,
        _canister_id: Principal,
        _method: String,
        args: Vec<u8>,
        _payment: u64,
    ) -> Result<Vec<u8>, (RejectionCode, String)> {
        Ok(args)
    }

    fn id(&self) -> Principal {
        Principal::anonymous()
    }

    fn get_memory_usage(&self) -> u64 {
        0
    }

    fn performance_counter(&self, _counter_type: u32) -> u64 {
        0
    }

    fn instruction_counter(&self) -> u64 {
        self.0
    }

    fn stable64_size(&self) -> u64 {
        0
    }
}

// A value that cannot be encoded.
struct Unwritable;

impl serde::Serialize for Unwritable {
    fn serialize<S: serde::Serializer>(&self, _serializer: S) -> Result<S::Ok, S::Error> {
        Err(serde::ser::Error::custom("not to be written"))
    }
}

type State = (Vec<u64>, String, HashMap<u64, (i32, String)>, Option<i64>);

fn state() -> State {
    (
        vec![10, 20, 30],
        "hello".to_owned(),
        HashMap::from([(10, (10, "20".to_owned())), (20, (30, "40".to_owned()))]),
        Some(-7),
    )
}

fn header(format: DataFormatType) -> Header {
    Header::new_from_format_and_schema(format, 3)
}

fn transient(skip_next_save: bool) -> Transient {
    Transient { skip_next_save, post_upgrade_instruction_count: 0 }
}

#[test]
fn page_size() {
    assert_eq!(WASM_PAGE_SIZE_IN_BYTES, 64 * 1024);
}

#[test]
fn writer_overwrites_extends_and_fills_gaps_with_zeros() {
    let mut writer = MovableWriter::new(vec![1, 2, 3, 4]);
    assert_eq!(writer.stream_position(), 0);
    writer.write_all(&[9, 9]).unwrap();
    assert_eq!(writer.as_slice(), &[9, 9, 3, 4]);
    assert_eq!(writer.stream_position(), 2);
    assert_eq!(writer.seek(3), Ok(3));
    writer.write_all(&[7, 8, 6]).unwrap();
    assert_eq!(writer.as_slice(), &[9, 9, 3, 7, 8, 6]);
    assert_eq!(writer.stream_position(), 6);
    assert_eq!(writer.seek(9), Ok(9));
    writer.write_all(&[5]).unwrap();
    assert_eq!(writer.into_inner(), vec![9, 9, 3, 7, 8, 6, 0, 0, 0, 5]);
}

#[test]
fn writing_the_same_window_twice_changes_nothing() {
    let mut writer = MovableWriter::new(vec![1, 2, 3, 4, 5]);
    writer.seek(2).unwrap();
    writer.write_all(&[8, 9]).unwrap();
    let once = writer.as_slice().to_vec();
    writer.seek(2).unwrap();
    writer.write_all(&[8, 9]).unwrap();
    assert_eq!(writer.as_slice(), once.as_slice());
    assert_eq!(once, vec![1, 2, 8, 9, 5]);
}

#[test]
fn empty_write_past_the_end_pads_the_region() {
    let mut writer = MovableWriter::new(vec![1]);
    writer.seek(3).unwrap();
    writer.write_all(&[]).unwrap();
    assert_eq!(writer.into_inner(), vec![1, 0, 0]);
}

#[test]
fn reader_reads_exactly_or_not_at_all() {
    let bytes = [1u8, 2, 3, 4, 5];
    let mut reader = MovableReader::new(&bytes);
    assert_eq!(reader.read_exact(2), Ok(vec![1, 2]));
    assert_eq!(reader.stream_position(), 2);
    assert_eq!(reader.as_unread_slice(), &[3, 4, 5]);
    assert_eq!(reader.read_exact(4), Err(IoError::UnexpectedEof));
    assert_eq!(reader.stream_position(), 2);
    reader.consume(1);
    assert_eq!(reader.read_exact(2), Ok(vec![4, 5]));
    assert_eq!(reader.read_exact(0), Ok(vec![]));
    assert_eq!(reader.seek(9), Ok(9));
    assert_eq!(reader.as_unread_slice(), &[] as &[u8]);
    assert_eq!(reader.read_exact(0), Ok(vec![]));
    assert_eq!(reader.read_exact(1), Err(IoError::UnexpectedEof));
    assert_eq!(reader.seek(1), Ok(1));
    assert_eq!(reader.read_exact(1), Ok(vec![2]));
}

#[test]
fn io_error_texts() {
    assert_eq!(IoError::UnexpectedEof.to_string(), "failed to fill whole buffer");
    assert_eq!(
        IoError::OutOfRange.to_string(),
        "invalid seek to a negative or overflowing position"
    );
    assert_eq!(HeaderError::InvalidContentFormat(7).to_string(), "Invalid content format 7");
    assert_eq!(
        HeaderError::InvalidHeaderLength(12, 4).to_string(),
        "Invalid header length 12 expecting 4"
    );
    assert_eq!(
        HeaderError::Io(IoError::UnexpectedEof).to_string(),
        "IO error failed to fill whole buffer"
    );
    assert_eq!(StorageError::Io(IoError::UnexpectedEof).to_string(), "io");
    assert_eq!(StorageError::Header(HeaderError::InvalidContentFormat(0)).to_string(), "header");
}

#[test]
fn both_adapters_round_trip() {
    let value = state();

    let mut writer = MovableWriter::new(vec![]);
    MsgPackAdapter::serialize(&mut writer, &value).unwrap();
    let bytes = writer.into_inner();
    assert_eq!(bytes, rmp_serde::to_vec(&value).unwrap());
    let mut reader = MovableReader::new(&bytes);
    let back: State = MsgPackAdapter::deserialize(&mut reader).unwrap();
    assert_eq!(back, value);
    assert_eq!(reader.stream_position(), bytes.len() as u64);

    let mut writer = MovableWriter::new(vec![]);
    BincodeAdapter::serialize(&mut writer, &value).unwrap();
    let bytes = writer.into_inner();
    assert_eq!(bytes, bincode::serialize(&value).unwrap());
    let mut reader = MovableReader::new(&bytes);
    let back: State = BincodeAdapter::deserialize(&mut reader).unwrap();
    assert_eq!(back, value);
    assert_eq!(reader.stream_position(), bytes.len() as u64);

    assert_eq!(MsgPackAdapter::format_type(), DataFormatType::MsgPack);
    assert_eq!(BincodeAdapter::format_type(), DataFormatType::Bincode);
}

#[test]
fn round_trip_of_plain_values() {
    for format in [DataFormatType::MsgPack, DataFormatType::Bincode] {
        let bytes = format.serde_serialize_bytes(&u64::MAX).unwrap();
        assert_eq!(format.serde_deserialize_bytes::<u64>(&bytes).unwrap(), u64::MAX);
        let bytes = format.serde_serialize_bytes(&String::from("text")).unwrap();
        assert_eq!(format.serde_deserialize_bytes::<String>(&bytes).unwrap(), "text");
        let bytes = format.serde_serialize_bytes(&vec![Some(1i8), None]).unwrap();
        assert_eq!(
            format.serde_deserialize_bytes::<Vec<Option<i8>>>(&bytes).unwrap(),
            vec![Some(1), None]
        );
        let bytes = format.serde_serialize_bytes(&(true, 'x', ())).unwrap();
        assert_eq!(
            format.serde_deserialize_bytes::<(bool, char, ())>(&bytes).unwrap(),
            (true, 'x', ())
        );
    }
}

#[test]
fn known_encodings() {
    assert_eq!(DataFormatType::Bincode.serde_serialize_bytes(&1u32).unwrap(), vec![1, 0, 0, 0]);
    assert_eq!(DataFormatType::MsgPack.serde_serialize_bytes(&1u32).unwrap(), vec![1]);
    assert_eq!(
        DataFormatType::MsgPack.serde_serialize_bytes(&(1u8, "a")).unwrap(),
        vec![0x92, 0x01, 0xa1, b'a']
    );
}

#[test]
fn adapters_write_at_the_position_and_read_from_it() {
    let mut writer = MovableWriter::new(vec![0xff; 6]);
    writer.seek(2).unwrap();
    DataFormatType::Bincode.serde_serialize(&mut writer, &7u16).unwrap();
    assert_eq!(writer.stream_position(), 4);
    let bytes = writer.into_inner();
    assert_eq!(bytes, vec![0xff, 0xff, 7, 0, 0xff, 0xff]);

    let mut reader = MovableReader::new(&bytes);
    reader.seek(2).unwrap();
    let value: u16 = DataFormatType::Bincode.serde_deserialize(&mut reader).unwrap();
    assert_eq!(value, 7);
    assert_eq!(reader.stream_position(), 4);
}

#[test]
fn unknown_format_encodes_and_decodes_nothing() {
    let mut writer = MovableWriter::new(vec![1, 2]);
    let result = DataFormatType::Unknown.serde_serialize(&mut writer, &1u8);
    assert!(matches!(
        result,
        Err(StorageError::Header(HeaderError::InvalidContentFormat(0)))
    ));
    assert_eq!(writer.as_slice(), &[1, 2]);
    assert!(matches!(
        DataFormatType::Unknown.serde_serialize_bytes(&1u8),
        Err(StorageError::Header(HeaderError::InvalidContentFormat(0)))
    ));
    assert!(matches!(
        DataFormatType::Unknown.serde_deserialize_bytes::<u8>(&[1]),
        Err(StorageError::Header(HeaderError::InvalidContentFormat(0)))
    ));
}

#[test]
fn decoding_garbage_fails_and_leaves_the_reader() {
    let bytes = [0xc1u8, 0xff];
    let mut reader = MovableReader::new(&bytes);
    let result: Result<String, StorageError> = MsgPackAdapter::deserialize(&mut reader);
    let error = result.unwrap_err();
    assert!(matches!(error, StorageError::MsgPackDecodeError(_)));
    assert!(error.to_string().starts_with("msgpack decode "));
    assert_eq!(reader.stream_position(), 0);

    let bytes = [1u8, 2];
    let mut reader = MovableReader::new(&bytes);
    let result: Result<u64, StorageError> = BincodeAdapter::deserialize(&mut reader);
    let error = result.unwrap_err();
    assert!(matches!(error, StorageError::BincodeError(_)));
    assert!(error.to_string().starts_with("bincode "));
    assert_eq!(reader.stream_position(), 0);
}

#[test]
fn v2_save_then_restore_reproduces_the_value() {
    for format in [DataFormatType::MsgPack, DataFormatType::Bincode] {
        let value = state();
        let mut writer = MovableWriter::new(vec![]);
        v2::save(&Counting(1234), &mut writer, &value, header(format), &transient(false)).unwrap();
        assert_eq!(writer.stream_position(), 40);
        let region = writer.into_inner();
        let content = format.serde_serialize_bytes(&value).unwrap();
        let written = Header {
            header_length: 4,
            content_length: content.len() as u64,
            content_format: format,
            content_schema_version: 3,
            pre_upgrade_instruction_count: 1234,
        };
        assert_eq!(&region[..40], written.as_bytes().as_slice());
        assert_eq!(&region[40..], content.as_slice());

        let mut reader = MovableReader::new(&region);
        let published = AtomicU64::new(0);
        let (restored_header, restored_transient, restored, mismatch): (
            Header,
            Transient,
            State,
            Option<(u64, u64)>,
        ) = v2::restore(&Counting(99), &mut reader, |version| {
            published.store(version, std::sync::atomic::Ordering::SeqCst)
        })
        .unwrap();
        assert_eq!(mismatch, None);
        assert_eq!(restored, value);
        assert_eq!(restored_header, written);
        assert_eq!(
            restored_transient,
            Transient { skip_next_save: false, post_upgrade_instruction_count: 99 }
        );
        assert_eq!(published.load(std::sync::atomic::Ordering::SeqCst), 3);
        assert_eq!(reader.stream_position(), region.len() as u64);
        assert_eq!(
            v2::content_length_mismatch(&restored_header, reader.stream_position() - 40),
            None
        );
    }
}

#[test]
fn v2_save_is_skipped_where_the_transient_says_so() {
    let mut writer = MovableWriter::new(vec![1, 2, 3]);
    writer.seek(1).unwrap();
    v2::save(&UnitTest, &mut writer, &state(), header(DataFormatType::Bincode), &transient(true))
        .unwrap();
    assert_eq!(writer.stream_position(), 1);
    assert_eq!(writer.into_inner(), vec![1, 2, 3]);
}

#[test]
fn v2_save_with_unknown_format_writes_nothing() {
    let mut writer = MovableWriter::new(vec![1, 2, 3]);
    let result =
        v2::save(&UnitTest, &mut writer, &1u8, header(DataFormatType::Unknown), &transient(false));
    assert!(matches!(
        result,
        Err(StorageError::Header(HeaderError::InvalidContentFormat(0)))
    ));
    assert_eq!(writer.into_inner(), vec![1, 2, 3]);
    let mut writer = MovableWriter::new(vec![]);
    let result = v2::save_content(&mut writer, &[1], header(DataFormatType::Unknown), 0);
    assert!(matches!(
        result,
        Err(StorageError::Header(HeaderError::InvalidContentFormat(0)))
    ));
}

#[test]
fn v2_save_backfills_the_header_where_the_writer_stood() {
    let mut writer = MovableWriter::new(vec![0xee; 100]);
    writer.seek(5).unwrap();
    v2::save_content(&mut writer, &[1, 2, 3], header(DataFormatType::MsgPack), 77).unwrap();
    assert_eq!(writer.stream_position(), 45);
    let region = writer.into_inner();
    assert_eq!(region.len(), 100);
    assert_eq!(&region[..5], &[0xee; 5]);
    assert_eq!(&region[45..48], &[1, 2, 3]);
    assert_eq!(&region[48..], &[0xee; 52]);
    let mut reader = MovableReader::new(&region);
    reader.seek(5).unwrap();
    let read = Header::new_from_reader(&mut reader).unwrap();
    assert_eq!(read.content_length, 3);
    assert_eq!(read.pre_upgrade_instruction_count, 77);
    assert_eq!(read.content_format, DataFormatType::MsgPack);
    assert_eq!(read.content_schema_version, 3);
    assert_eq!(reader.stream_position(), 45);
}

#[test]
fn v2_restore_tolerates_a_wrong_content_length() {
    let value = state();
    let mut writer = MovableWriter::new(vec![]);
    v2::save(&UnitTest, &mut writer, &value, header(DataFormatType::Bincode), &transient(false))
        .unwrap();
    let mut region = writer.into_inner();
    let actual = (region.len() - 40) as u64;
    region[8..16].copy_from_slice(&(actual + 5).to_le_bytes());

    let mut reader = MovableReader::new(&region);
    let (restored_header, _, restored, mismatch): (Header, Transient, State, Option<(u64, u64)>) =
        v2::restore(&UnitTest, &mut reader, |_| {}).unwrap();
    assert_eq!(restored, value);
    assert_eq!(restored_header.content_length, actual + 5);
    assert_eq!(mismatch, Some((actual + 5, actual)));
    assert_eq!(
        v2::content_length_mismatch(&restored_header, reader.stream_position() - 40),
        Some((actual + 5, actual))
    );
}

#[test]
fn v2_restore_fails_on_a_bad_header_or_bad_content() {
    let mut reader = MovableReader::new(&[1, 2, 3]);
    let result: Result<(Header, Transient, u8, Option<(u64, u64)>), StorageError> =
        v2::restore(&UnitTest, &mut reader, |_| {});
    assert!(matches!(result, Err(StorageError::Header(HeaderError::Io(IoError::UnexpectedEof)))));

    let mut region = header(DataFormatType::Bincode).as_bytes();
    region[0] = 9;
    let mut reader = MovableReader::new(&region);
    let result: Result<(Header, Transient, u8, Option<(u64, u64)>), StorageError> =
        v2::restore(&UnitTest, &mut reader, |_| {});
    assert!(matches!(
        result,
        Err(StorageError::Header(HeaderError::InvalidHeaderLength(9, 4)))
    ));

    let region = header(DataFormatType::Bincode).as_bytes();
    let mut reader = MovableReader::new(&region);
    let result: Result<(Header, Transient, u64, Option<(u64, u64)>), StorageError> =
        v2::restore(&UnitTest, &mut reader, |_| {});
    assert!(matches!(result, Err(StorageError::BincodeError(_))));
    assert_eq!(reader.stream_position(), 40);

    let region = header(DataFormatType::MsgPack).as_bytes();
    let mut reader = MovableReader::new(&region);
    let result: Result<(Header, Transient, u64, Option<(u64, u64)>), StorageError> =
        v2::restore(&UnitTest, &mut reader, |_| {});
    assert!(matches!(result, Err(StorageError::MsgPackDecodeError(_))));
}

#[test]
fn restore_returns_the_decoded_value_or_the_error_of_the_decoder() {
    let read = header(DataFormatType::Bincode);
    let done = v2::complete_restore(read, Ok::<u8, StorageError>(5), 0, 42).unwrap();
    assert_eq!(
        done,
        (read, Transient { skip_next_save: false, post_upgrade_instruction_count: 42 }, 5, None)
    );
    let done = v2::complete_restore(read, Ok::<u8, StorageError>(5), 3, 42).unwrap();
    assert_eq!(done.3, Some((0, 3)));
    let failed = v2::complete_restore(
        read,
        Err::<u8, StorageError>(StorageError::Io(IoError::UnexpectedEof)),
        0,
        42,
    );
    assert!(matches!(failed, Err(StorageError::Io(IoError::UnexpectedEof))));
    let done = v1::complete_restore(Ok::<u8, StorageError>(5), 17, 42).unwrap();
    assert_eq!(done.0.content_length, 17);
    assert_eq!(done.0.content_format, DataFormatType::MsgPack);
    assert_eq!(done.0.header_length, 0);
    assert_eq!(done.2, 5);
}

#[test]
fn v1_saves_the_content_alone_and_makes_up_a_header() {
    let value = state();
    let mut writer = MovableWriter::new(vec![]);
    v1::save(&UnitTest, &mut writer, &value).unwrap();
    let region = writer.into_inner();
    assert_eq!(region, rmp_serde::to_vec(&value).unwrap());

    let mut reader = MovableReader::new(&region);
    let (made_up, restored_transient, restored): (Header, Transient, State) =
        v1::restore(&Counting(5), &mut reader).unwrap();
    assert_eq!(restored, value);
    assert_eq!(
        made_up,
        Header {
            header_length: 0,
            content_length: region.len() as u64,
            content_format: DataFormatType::MsgPack,
            content_schema_version: 0,
            pre_upgrade_instruction_count: 0,
        }
    );
    assert_eq!(
        restored_transient,
        Transient { skip_next_save: false, post_upgrade_instruction_count: 5 }
    );

    let mut reader = MovableReader::new(&[0xc1]);
    let result: Result<(Header, Transient, State), StorageError> =
        v1::restore(&UnitTest, &mut reader);
    assert!(matches!(result, Err(StorageError::MsgPackDecodeError(_))));
}

#[test]
fn systems_outside_a_canister() {
    assert_eq!(UnitTest.instruction_counter(), 0);
    assert_eq!(UnitTest.canister_balance(), 500);
    assert_eq!(UnitTest.get_memory_usage(), 0);
    assert_eq!(UnitTest.performance_counter(1), 0);
    assert_eq!(UnitTest.stable64_size(), 0);
    assert!(UnitTest.time() > 1_600_000_000_000_000_000);
    let fixed = Edge::new_with_caller_and_time(Principal::anonymous(), Some(42));
    assert_eq!(fixed.time(), 42);
    assert_eq!(fixed.canister_balance(), 500);
    assert_eq!(fixed.instruction_counter(), 0);
    assert!(Edge::default().time() > 1_600_000_000_000_000_000);
    assert_eq!(Transient::default(), Transient { skip_next_save: false, post_upgrade_instruction_count: 0 });
    assert_eq!(Transient::after_restore(9).post_upgrade_instruction_count, 9);
}

#[test]
fn a_value_that_cannot_be_encoded_leaves_the_writer() {
    let mut writer = MovableWriter::new(vec![1, 2, 3]);
    writer.seek(1).unwrap();
    let error = MsgPackAdapter::serialize(&mut writer, &Unwritable).unwrap_err();
    assert!(matches!(error, StorageError::MsgPackEncodeError(_)));
    assert_eq!(error.to_string(), "msgpack encode not to be written");
    let error = BincodeAdapter::serialize(&mut writer, &Unwritable).unwrap_err();
    assert!(matches!(error, StorageError::BincodeError(_)));
    assert_eq!(error.to_string(), "bincode not to be written");
    assert!(matches!(
        DataFormatType::MsgPack.serde_serialize_bytes(&Unwritable),
        Err(StorageError::MsgPackEncodeError(_))
    ));
    let result = v2::save(
        &UnitTest,
        &mut writer,
        &Unwritable,
        header(DataFormatType::Bincode),
        &transient(false),
    );
    assert!(matches!(result, Err(StorageError::BincodeError(_))));
    assert!(matches!(
        v1::save(&UnitTest, &mut writer, &Unwritable),
        Err(StorageError::MsgPackEncodeError(_))
    ));
    assert_eq!(writer.stream_position(), 1);
    assert_eq!(writer.into_inner(), vec![1, 2, 3]);
}

#[test]
fn the_names_of_the_formats() {
    assert_eq!(DataFormatType::Unknown.to_string(), "Unknown");
    assert_eq!(DataFormatType::MsgPack.to_string(), "MsgPack");
    assert_eq!(DataFormatType::Bincode.to_string(), "Bincode");
}

#[test]
fn a_write_that_cannot_be_addressed_is_refused() {
    let mut writer = MovableWriter::new(vec![1, 2]);
    assert_eq!(writer.seek(u64::MAX - 10), Ok(u64::MAX - 10));
    assert_eq!(writer.write_all(&[0; 11]), Err(IoError::OutOfRange));
    assert_eq!(writer.stream_position(), u64::MAX - 10);
    assert_eq!(
        header(DataFormatType::Bincode).write(&mut writer),
        Err(HeaderError::Io(IoError::OutOfRange))
    );
    let result = v2::save_content(&mut writer, &[1, 2, 3], header(DataFormatType::Bincode), 0);
    assert!(matches!(result, Err(StorageError::Io(IoError::OutOfRange))));
    let result = v2::save(
        &UnitTest,
        &mut writer,
        &7u8,
        header(DataFormatType::MsgPack),
        &transient(false),
    );
    assert!(matches!(result, Err(StorageError::Io(IoError::OutOfRange))));
    let result = v1::save(&UnitTest, &mut writer, &[0u8; 32]);
    assert!(matches!(result, Err(StorageError::Io(IoError::OutOfRange))));
    assert_eq!(writer.stream_position(), u64::MAX - 10);
    assert_eq!(writer.into_inner(), vec![1, 2]);
    assert_eq!(
        HeaderError::Io(IoError::OutOfRange).to_string(),
        "IO error invalid seek to a negative or overflowing position"
    );
}

#[test]
fn a_decode_moves_the_reader_past_what_the_codec_read() {
    let bytes = [1u8, 2, 3, 4];
    let mut reader = MovableReader::new(&bytes);
    reader.seek(1).unwrap();
    assert!(matches!(complete_decode(&mut reader, Ok(("value", 2))), Ok("value")));
    assert_eq!(reader.stream_position(), 3);
    assert!(matches!(complete_decode(&mut reader, Ok((7u8, 0))), Ok(7)));
    assert_eq!(reader.stream_position(), 3);
    let failed =
        complete_decode(&mut reader, Err::<(u8, usize), _>(StorageError::Io(IoError::OutOfRange)));
    assert!(matches!(failed, Err(StorageError::Io(IoError::OutOfRange))));
    assert_eq!(reader.stream_position(), 3);
    // more than was left cannot have been read
    let failed = complete_decode(&mut reader, Ok((7u8, 2)));
    assert!(matches!(failed, Err(StorageError::Io(IoError::UnexpectedEof))));
    assert_eq!(reader.stream_position(), 3);
    assert!(matches!(complete_decode(&mut reader, Ok((7u8, 1))), Ok(7)));
    assert_eq!(reader.stream_position(), 4);
}

#[test]
fn each_system_names_its_caller() {
    let management = Principal::from_text("aaaaa-aa").unwrap();
    assert_eq!(management_canister(), management);
    assert_eq!(management_canister().as_slice(), &[] as &[u8]);
    assert_eq!(UnitTest.caller(), management);
    assert_eq!(UnitTest.id(), management);
    assert_eq!(Edge::default().caller(), management);
    assert_eq!(Edge::default().id(), management);
    let someone = Principal::from_slice(&[1, 2, 3]);
    let edge = Edge::new_with_caller_and_time(someone, None);
    assert_eq!(edge.caller(), someone);
    assert_eq!(edge.id(), someone);
    assert_ne!(edge.caller(), management);
    assert!(edge.time() > 1_600_000_000_000_000_000);
}

#[test]
fn a_system_that_calls_canisters_hands_the_answer_back() {
    let system = Counting(7);
    let answer =
        system.call_canister(Principal::anonymous(), "echo".to_owned(), vec![1, 2, 3], 0).unwrap();
    assert_eq!(answer, vec![1, 2, 3]);
    assert_eq!(system.caller(), system.id());
}
