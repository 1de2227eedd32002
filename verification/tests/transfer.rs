use ic_canister_stable_storage::data_format::DataFormatType;
use ic_canister_stable_storage::header::Header;
use ic_canister_stable_storage::movable_io::MovableWriter;
use ic_canister_stable_storage::stable_storage_restore_backup::{
    backup_file_name, get_default_stable_storage_backup_file_name, retry_backoff, retry_delay,
    Backup, BackupAction, CanisterStats, Restore, RestoreAction, RestorePhase, TransferErrorKind,
    BACKUP_CHUNK_SIZE, MAX_ATTEMPTS, MAX_IN_FLIGHT, RESTORE_CHUNK_SIZE, RETRY_BASE_MILLIS,
    RETRY_MAX_DELAY_MILLIS,
};
use ic_canister_stable_storage::windows::Window;

fn header(content_length: u64) -> Header {
    Header {
        header_length: 4,
        content_length,
        content_format: DataFormatType::Bincode,
        content_schema_version: 1,
        pre_upgrade_instruction_count: 0,
    }
}

fn fetch_all(backup: &mut Backup) -> Vec<Window> {
    let mut windows = vec![];
    loop {
        match backup.next_action() {
            BackupAction::Fetch(window) => windows.push(window),
            BackupAction::Wait => backup.chunk_received(0),
            BackupAction::Finish | BackupAction::Abort => return windows,
        }
    }
}

#[test]
fn the_sizes_of_the_windows() {
    assert_eq!(BACKUP_CHUNK_SIZE, 1024 * 1024 * 5 / 2);
    assert_eq!(BACKUP_CHUNK_SIZE, 2621440);
    assert_eq!(RESTORE_CHUNK_SIZE, 2096000);
    assert_eq!(MAX_IN_FLIGHT, 10);
    assert_eq!(MAX_ATTEMPTS, 5);
    assert_eq!(RETRY_BASE_MILLIS, 2000);
    assert_eq!(RETRY_MAX_DELAY_MILLIS, 10000);
}

#[test]
fn a_backup_needs_a_canister_that_has_saved() {
    let mut unknown = header(10);
    unknown.content_format = DataFormatType::Unknown;
    assert_eq!(
        Backup::new(&unknown).unwrap_err(),
        TransferErrorKind::CanisterStableStorageNotInitialized
    );
    assert_eq!(
        Backup::new(&header(u64::MAX - 39)).unwrap_err(),
        TransferErrorKind::StableStorageTooLarge(u64::MAX - 39)
    );
    let backup = Backup::new(&header(100)).unwrap();
    assert_eq!(backup.total_len(), 140);
    assert_eq!(backup.fetches_in_flight(), 0);
    assert_eq!(backup.total_written(), 0);
}

#[test]
fn a_backup_cuts_the_region_into_windows() {
    let mut backup = Backup::new(&header(2 * BACKUP_CHUNK_SIZE + 60)).unwrap();
    assert_eq!(
        fetch_all(&mut backup),
        vec![
            Window { offset: 0, len: BACKUP_CHUNK_SIZE },
            Window { offset: BACKUP_CHUNK_SIZE, len: BACKUP_CHUNK_SIZE },
            Window { offset: 2 * BACKUP_CHUNK_SIZE, len: 100 },
        ]
    );
    // a region of whole windows has no window without bytes
    let mut backup = Backup::new(&header(BACKUP_CHUNK_SIZE - 40)).unwrap();
    assert_eq!(fetch_all(&mut backup), vec![Window { offset: 0, len: BACKUP_CHUNK_SIZE }]);
    let mut backup = Backup::new(&header(0)).unwrap();
    assert_eq!(fetch_all(&mut backup), vec![Window { offset: 0, len: 40 }]);
}

#[test]
fn a_backup_keeps_at_most_ten_fetches_in_flight() {
    let mut backup = Backup::new(&header(12 * BACKUP_CHUNK_SIZE)).unwrap();
    for index in 0..10 {
        assert_eq!(
            backup.next_action(),
            BackupAction::Fetch(Window { offset: index * BACKUP_CHUNK_SIZE, len: BACKUP_CHUNK_SIZE })
        );
    }
    assert_eq!(backup.fetches_in_flight(), 10);
    assert_eq!(backup.next_action(), BackupAction::Wait);
    assert_eq!(backup.next_action(), BackupAction::Wait);
    backup.chunk_received(BACKUP_CHUNK_SIZE as usize);
    assert_eq!(backup.fetches_in_flight(), 9);
    assert_eq!(
        backup.next_action(),
        BackupAction::Fetch(Window { offset: 10 * BACKUP_CHUNK_SIZE, len: BACKUP_CHUNK_SIZE })
    );
    assert_eq!(backup.next_action(), BackupAction::Wait);
}

#[test]
fn a_backup_ends_with_the_length_of_the_region_or_fails() {
    let mut backup = Backup::new(&header(BACKUP_CHUNK_SIZE)).unwrap();
    assert!(matches!(backup.next_action(), BackupAction::Fetch(_)));
    assert!(matches!(backup.next_action(), BackupAction::Fetch(_)));
    assert_eq!(backup.next_action(), BackupAction::Wait);
    backup.chunk_received(40);
    backup.chunk_received(BACKUP_CHUNK_SIZE as usize);
    // nothing is in flight: a further answer is not counted
    backup.chunk_received(1000);
    assert_eq!(backup.next_action(), BackupAction::Finish);
    assert_eq!(backup.total_written() as u64, BACKUP_CHUNK_SIZE + 40);
    assert_eq!(backup.finish(), Ok(()));

    let mut backup = Backup::new(&header(100)).unwrap();
    assert!(matches!(backup.next_action(), BackupAction::Fetch(_)));
    backup.chunk_received(139);
    assert_eq!(backup.next_action(), BackupAction::Finish);
    assert_eq!(backup.finish(), Err(TransferErrorKind::BackupLengthMismatch(140, 139)));
    assert_eq!(
        backup.finish().unwrap_err().to_string(),
        "Backup length mismatch expected 140 actual 139"
    );
    assert_eq!(
        TransferErrorKind::CanisterStableStorageNotInitialized.to_string(),
        "Canister stable storage not initialized"
    );
}

#[test]
fn a_backup_stops_after_a_failure() {
    let mut backup = Backup::new(&header(5 * BACKUP_CHUNK_SIZE)).unwrap();
    assert!(matches!(backup.next_action(), BackupAction::Fetch(_)));
    assert!(matches!(backup.next_action(), BackupAction::Fetch(_)));
    backup.fetch_failed();
    assert_eq!(backup.next_action(), BackupAction::Abort);
    backup.chunk_received(1);
    assert_eq!(backup.next_action(), BackupAction::Abort);
}

#[test]
fn windows_written_in_any_order_rebuild_the_region() {
    let size = BACKUP_CHUNK_SIZE as usize;
    let remote: Vec<u8> = (0..2 * size + 1234).map(|i| (i % 253) as u8).collect();
    let mut backup = Backup::new(&header(remote.len() as u64 - 40)).unwrap();
    let windows = fetch_all(&mut backup);
    assert_eq!(windows.len(), 3);
    assert_eq!(windows.iter().map(|w| w.len).sum::<u64>(), remote.len() as u64);
    for order in [[0, 1, 2], [2, 0, 1], [1, 2, 0], [2, 1, 0]] {
        let mut sink = MovableWriter::new(vec![]);
        let mut written = 0;
        for index in order {
            let window = windows[index];
            let start = window.offset as usize;
            let chunk = &remote[start..start + window.len as usize];
            sink.seek(window.offset).unwrap();
            sink.write_all(chunk).unwrap();
            written += chunk.len();
        }
        assert_eq!(written, remote.len());
        assert!(sink.into_inner() == remote);
    }
}

fn restore_actions(restore: &mut Restore) -> Vec<RestoreAction> {
    let mut actions = vec![];
    loop {
        let action = restore.next_action();
        actions.push(action);
        match action {
            RestoreAction::InitStorage(_) => restore.storage_initialized(),
            RestoreAction::UploadHeader => restore.header_uploaded(),
            RestoreAction::Upload(_) => {}
            RestoreAction::Wait => restore.window_uploaded(),
            RestoreAction::SetRestoreFlag => restore.restore_flag_set(),
            RestoreAction::Done | RestoreAction::Abort => return actions,
        }
    }
}

#[test]
fn a_restore_uploads_the_header_then_the_content_then_tells_the_canister() {
    let mut restore = Restore::new(header(2 * RESTORE_CHUNK_SIZE + 10)).unwrap();
    assert_eq!(restore.total_len(), 2 * RESTORE_CHUNK_SIZE + 50);
    assert_eq!(restore.header_bytes(), header(2 * RESTORE_CHUNK_SIZE + 10).as_bytes());
    assert_eq!(restore.current_phase(), RestorePhase::InitStorage);
    assert_eq!(
        restore_actions(&mut restore),
        vec![
            RestoreAction::InitStorage(2 * RESTORE_CHUNK_SIZE + 50),
            RestoreAction::UploadHeader,
            RestoreAction::Upload(Window { offset: 40, len: RESTORE_CHUNK_SIZE }),
            RestoreAction::Upload(Window { offset: 40 + RESTORE_CHUNK_SIZE, len: RESTORE_CHUNK_SIZE }),
            RestoreAction::Upload(Window { offset: 40 + 2 * RESTORE_CHUNK_SIZE, len: 10 }),
            RestoreAction::Wait,
            RestoreAction::Wait,
            RestoreAction::Wait,
            RestoreAction::SetRestoreFlag,
            RestoreAction::Done,
        ]
    );
    assert_eq!(restore.current_phase(), RestorePhase::Done);
    assert_eq!(restore.next_action(), RestoreAction::Done);
}

#[test]
fn a_restore_without_content_uploads_the_header_alone() {
    let mut restore = Restore::new(header(0)).unwrap();
    assert_eq!(
        restore_actions(&mut restore),
        vec![
            RestoreAction::InitStorage(40),
            RestoreAction::UploadHeader,
            RestoreAction::SetRestoreFlag,
            RestoreAction::Done,
        ]
    );
    let mut restore = Restore::new(header(RESTORE_CHUNK_SIZE)).unwrap();
    let actions = restore_actions(&mut restore);
    assert_eq!(actions[2], RestoreAction::Upload(Window { offset: 40, len: RESTORE_CHUNK_SIZE }));
    assert_eq!(actions[3], RestoreAction::Wait);
    assert_eq!(actions[4], RestoreAction::SetRestoreFlag);
}

#[test]
fn a_restore_waits_for_each_step_and_keeps_ten_uploads_in_flight() {
    let mut restore = Restore::new(header(11 * RESTORE_CHUNK_SIZE)).unwrap();
    assert_eq!(restore.next_action(), RestoreAction::InitStorage(11 * RESTORE_CHUNK_SIZE + 40));
    assert_eq!(restore.next_action(), RestoreAction::InitStorage(11 * RESTORE_CHUNK_SIZE + 40));
    restore.header_uploaded();
    assert_eq!(restore.current_phase(), RestorePhase::InitStorage);
    restore.storage_initialized();
    assert_eq!(restore.next_action(), RestoreAction::UploadHeader);
    restore.window_uploaded();
    restore.restore_flag_set();
    assert_eq!(restore.next_action(), RestoreAction::UploadHeader);
    restore.header_uploaded();
    for index in 0..10 {
        assert_eq!(
            restore.next_action(),
            RestoreAction::Upload(Window {
                offset: 40 + index * RESTORE_CHUNK_SIZE,
                len: RESTORE_CHUNK_SIZE
            })
        );
    }
    assert_eq!(restore.uploads_in_flight(), 10);
    assert_eq!(restore.next_action(), RestoreAction::Wait);
    restore.window_uploaded();
    assert!(matches!(restore.next_action(), RestoreAction::Upload(_)));
    assert_eq!(restore.next_action(), RestoreAction::Wait);
    for _ in 0..9 {
        restore.window_uploaded();
        assert_eq!(restore.next_action(), RestoreAction::Wait);
    }
    restore.window_uploaded();
    assert_eq!(restore.next_action(), RestoreAction::SetRestoreFlag);
}

#[test]
fn a_restore_stops_after_a_failure() {
    let mut restore = Restore::new(header(3 * RESTORE_CHUNK_SIZE)).unwrap();
    restore.storage_initialized();
    restore.header_uploaded();
    assert!(matches!(restore.next_action(), RestoreAction::Upload(_)));
    restore.call_failed();
    assert_eq!(restore.current_phase(), RestorePhase::Failed);
    assert_eq!(restore.next_action(), RestoreAction::Abort);
    restore.window_uploaded();
    restore.restore_flag_set();
    assert_eq!(restore.next_action(), RestoreAction::Abort);

    assert_eq!(
        Restore::new(header(u64::MAX - 39)).unwrap_err(),
        TransferErrorKind::StableStorageTooLarge(u64::MAX - 39)
    );
    let mut long = header(10);
    long.header_length = 6;
    let mut restore = Restore::new(long).unwrap();
    assert_eq!(restore.next_action(), RestoreAction::InitStorage(6 * 8 + 8 + 10));
    assert_eq!(restore.total_len(), 50);
}

#[test]
fn uploads_are_retried_with_a_growing_delay_and_given_up_after_five_attempts() {
    assert_eq!(retry_backoff(0), None);
    assert_eq!(retry_backoff(1), Some(2000));
    assert_eq!(retry_backoff(2), Some(10000));
    assert_eq!(retry_backoff(3), Some(10000));
    assert_eq!(retry_backoff(4), Some(10000));
    assert_eq!(retry_backoff(5), None);
    assert_eq!(retry_backoff(u32::MAX), None);
    for _ in 0..50 {
        assert!(retry_delay(1).unwrap() < 2000);
        assert!(retry_delay(4).unwrap() < 10000);
    }
    assert_eq!(retry_delay(0), None);
    assert_eq!(retry_delay(5), None);
    let delays: Vec<u64> = (0..20).map(|_| retry_delay(3).unwrap()).collect();
    assert!(delays.iter().any(|d| *d != delays[0]));
}

#[test]
fn the_name_of_a_backup_file() {
    assert_eq!(
        get_default_stable_storage_backup_file_name("backup", &[0xde, 0xad, 0xbe, 0xef], 0),
        Some("backup_deadb_1970-01-01_00-00-00".to_owned())
    );
    assert_eq!(
        get_default_stable_storage_backup_file_name(
            "society",
            &[0x01, 0x23, 0x45],
            1_700_000_000_123_456_789
        ),
        Some("society_01234_2023-11-14_22-13-20".to_owned())
    );
    assert_eq!(get_default_stable_storage_backup_file_name("p", &[1, 2], 0), None);
    assert_eq!(
        backup_file_name("", &[0xff, 0x00, 0x0a], Some("t".to_owned())),
        Some("_ff000_t".to_owned())
    );
    assert_eq!(backup_file_name("p", &[0xff, 0x00, 0x0a], None), None);
}

#[test]
fn what_a_canister_reports() {
    let stats = CanisterStats {
        now: 1,
        memory_usage: 2,
        cycles: 3,
        stable_storage_usage_bytes: 4,
        last_upgraded: 5,
        version: "v".to_owned(),
    };
    let copy = stats.clone();
    assert_eq!(copy.last_upgraded, 5);
    assert_eq!(copy.version, "v");
}

#[test]
fn a_restore_begins_its_windows_at_the_given_offset() {
    let content = 2 * RESTORE_CHUNK_SIZE + 10;
    // no offset: right behind the header
    let restore = Restore::new_from_offset(header(content), None).unwrap();
    assert_eq!(restore.start_offset(), 40);
    assert_eq!(Restore::new(header(content)).unwrap().start_offset(), 40);

    let mut restore =
        Restore::new_from_offset(header(content), Some(40 + RESTORE_CHUNK_SIZE)).unwrap();
    assert_eq!(restore.start_offset(), 40 + RESTORE_CHUNK_SIZE);
    assert_eq!(restore.total_len(), content + 40);
    assert_eq!(
        restore_actions(&mut restore),
        vec![
            RestoreAction::InitStorage(content + 40),
            RestoreAction::UploadHeader,
            RestoreAction::Upload(Window { offset: 40 + RESTORE_CHUNK_SIZE, len: RESTORE_CHUNK_SIZE }),
            RestoreAction::Upload(Window { offset: 40 + 2 * RESTORE_CHUNK_SIZE, len: 10 }),
            RestoreAction::Wait,
            RestoreAction::Wait,
            RestoreAction::SetRestoreFlag,
            RestoreAction::Done,
        ]
    );

    // an offset between two windows moves every window
    let mut restore = Restore::new_from_offset(header(content), Some(100)).unwrap();
    let actions = restore_actions(&mut restore);
    assert_eq!(actions[2], RestoreAction::Upload(Window { offset: 100, len: RESTORE_CHUNK_SIZE }));
    assert_eq!(
        actions[3],
        RestoreAction::Upload(Window { offset: 100 + RESTORE_CHUNK_SIZE, len: RESTORE_CHUNK_SIZE - 50 })
    );
    assert_eq!(actions[4], RestoreAction::Wait);
}

#[test]
fn a_restore_from_the_end_or_behind_it_uploads_the_header_alone() {
    for offset in [50, 51, u64::MAX] {
        let mut restore = Restore::new_from_offset(header(10), Some(offset)).unwrap();
        assert_eq!(restore.start_offset(), 50);
        assert_eq!(
            restore_actions(&mut restore),
            vec![
                RestoreAction::InitStorage(50),
                RestoreAction::UploadHeader,
                RestoreAction::SetRestoreFlag,
                RestoreAction::Done,
            ]
        );
    }
    let mut restore = Restore::new_from_offset(header(10), Some(49)).unwrap();
    assert_eq!(restore_actions(&mut restore)[2], RestoreAction::Upload(Window { offset: 49, len: 1 }));
}

#[test]
fn a_restore_does_not_begin_inside_the_header() {
    for offset in [0, 1, 39] {
        let error = Restore::new_from_offset(header(10), Some(offset)).unwrap_err();
        assert_eq!(error, TransferErrorKind::RestoreOffsetInsideHeader(offset));
    }
    assert_eq!(
        TransferErrorKind::RestoreOffsetInsideHeader(39).to_string(),
        "Restore offset inside the header: 39"
    );
    assert!(Restore::new_from_offset(header(10), Some(40)).is_ok());
    // a region that cannot be addressed is refused first
    let error = Restore::new_from_offset(header(u64::MAX), Some(0)).unwrap_err();
    assert_eq!(error, TransferErrorKind::StableStorageTooLarge(u64::MAX));
}
