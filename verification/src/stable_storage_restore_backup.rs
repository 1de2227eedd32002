//! Planning of chunked backup and restore transfers.
//!
//! A transfer moves a stable storage region between a canister and a local stream in
//! windows of a fixed size, a bounded number of them at a time. The plans below decide what
//! is to be done next; the caller does it and reports back what happened.

use crate::data_format::DataFormatType;
use crate::header::Header;
use crate::movable_io::write_at;
use crate::windows::{
    lemma_windows_rebuild_in_any_order, spec_apply_windows, spec_covers_all_windows,
    spec_window_count, spec_window_len, spec_window_offset, Window,
};
use vstd::prelude::*;
use vstd::string::{StrSliceExecFns, StringExecFns};

verus! {

/// Size of a window that a backup fetches: 2.5 MiB.
pub const BACKUP_CHUNK_SIZE: u64 = 2621440;

/// Size of a window that a restore uploads.
pub const RESTORE_CHUNK_SIZE: u64 = 2096000;

/// The largest number of calls that a transfer keeps in flight.
pub const MAX_IN_FLIGHT: u64 = 10;

/// The largest number of times that the upload of one window is tried.
pub const MAX_ATTEMPTS: u32 = 5;

/// The delay before the first retry of an upload, in milliseconds.
pub const RETRY_BASE_MILLIS: u64 = 2000;

/// The longest delay before a retry of an upload, in milliseconds.
pub const RETRY_MAX_DELAY_MILLIS: u64 = 10000;

/// What a canister reports of itself.
#[derive(Debug)]
pub struct CanisterStats {
    /// The time at the canister
    pub now: u64,
    /// The memory in use
    pub memory_usage: u64,
    /// The cycle balance
    pub cycles: u64,
    /// The stable storage in use, in bytes
    pub stable_storage_usage_bytes: u64,
    /// The time of the last upgrade, in nanoseconds since the Unix epoch
    pub last_upgraded: u64,
    /// The version of the canister
    pub version: String,
}

impl Clone for CanisterStats {
    fn clone(&self) -> (r: Self)
        ensures
            r.now == self.now,
            r.memory_usage == self.memory_usage,
            r.cycles == self.cycles,
            r.stable_storage_usage_bytes == self.stable_storage_usage_bytes,
            r.last_upgraded == self.last_upgraded,
            r.version@ == self.version@,
    {
        CanisterStats {
            now: self.now,
            memory_usage: self.memory_usage,
            cycles: self.cycles,
            stable_storage_usage_bytes: self.stable_storage_usage_bytes,
            last_upgraded: self.last_upgraded,
            version: self.version.clone(),
        }
    }
}

/// Why a transfer cannot be planned or did not end well.
#[derive(Debug, Clone, Copy, PartialEq, Eq, Structural)]
pub enum TransferErrorKind {
    /// The backup ended with another number of bytes than the header announced: expected,
    /// actual.
    BackupLengthMismatch(usize, usize),
    /// The canister has not saved anything yet.
    CanisterStableStorageNotInitialized,
    /// Header and content of this content length cannot be addressed on this machine.
    StableStorageTooLarge(u64),
    /// The offset at which a restore is to begin lies inside the header.
    RestoreOffsetInsideHeader(u64),
}

/// What a backup is to do next.
#[derive(Debug, Clone, Copy, PartialEq, Eq, Structural)]
pub enum BackupAction {
    /// Fetch this window from the canister.
    Fetch(Window),
    /// Wait for a fetch that is in flight to end.
    Wait,
    /// Every window has been fetched: compare the lengths and flush the sink.
    Finish,
    /// A fetch failed: fetch nothing more and hand its error on.
    Abort,
}

/// The plan of a backup: which windows of the region have been asked for, how many fetches
/// are in flight, and how many bytes have come back.
#[derive(Debug, Clone, Copy)]
pub struct Backup {
    total: u64,
    window_count: u64,
    next_index: u64,
    in_flight: u64,
    completed: u64,
    received: u128,
    failed: bool,
}

impl Backup {
    /// The length of the region: header and content.
    pub closed spec fn total(&self) -> nat {
        self.total as nat
    }

    /// The index of the next window to look at.
    pub closed spec fn next_index(&self) -> nat {
        self.next_index as nat
    }

    /// The number of fetches that are in flight.
    pub closed spec fn in_flight(&self) -> nat {
        self.in_flight as nat
    }

    /// The number of fetches that have come back.
    pub closed spec fn completed(&self) -> nat {
        self.completed as nat
    }

    /// The number of bytes that have come back.
    pub closed spec fn received(&self) -> nat {
        self.received as nat
    }

    /// Whether a fetch has failed.
    pub closed spec fn failed(&self) -> bool {
        self.failed
    }

    /// The number of windows of the region.
    pub open spec fn window_count(&self) -> nat {
        spec_window_count(0, self.total(), BACKUP_CHUNK_SIZE as nat)
    }

    /// Whether the next window is fetched now: no fetch has failed, fewer than
    /// `MAX_IN_FLIGHT` fetches are in flight, and there is a window left that holds a byte.
    pub open spec fn spec_can_fetch(&self) -> bool {
        &&& !self.failed()
        &&& self.in_flight() < MAX_IN_FLIGHT
        &&& self.next_index() < self.window_count()
        &&& spec_window_len(0, self.total(), BACKUP_CHUNK_SIZE as nat, self.next_index()) > 0
    }

    /// What holds of every plan that this module hands out.
    pub closed spec fn wf(&self) -> bool {
        &&& self.total <= usize::MAX
        &&& self.window_count == self.total / BACKUP_CHUNK_SIZE + 1
        &&& self.next_index <= self.window_count
        &&& self.in_flight <= MAX_IN_FLIGHT
        &&& self.in_flight + self.completed <= self.next_index
        &&& self.received <= self.completed * usize::MAX
    }

    /// The length of the region that the header describes, where a backup can be made of it.
    pub open spec fn spec_new_total(header: Header) -> Result<u64, TransferErrorKind> {
        if header.content_format == DataFormatType::Unknown {
            Err(TransferErrorKind::CanisterStableStorageNotInitialized)
        } else if 40 + header.content_length > usize::MAX {
            Err(TransferErrorKind::StableStorageTooLarge(header.content_length))
        } else {
            Ok((40 + header.content_length) as u64)
        }
    }

    /// Plan the backup of the region that `header` describes.
    pub fn new(header: &Header) -> (r: Result<Self, TransferErrorKind>)
        ensures
            Self::spec_new_total(*header) is Err ==> r is Err && r->Err_0 == Self::spec_new_total(
                *header,
            )->Err_0,
            Self::spec_new_total(*header) is Ok ==> r is Ok && r->Ok_0.wf() && r->Ok_0.total()
                == Self::spec_new_total(*header)->Ok_0 && r->Ok_0.next_index() == 0
                && r->Ok_0.in_flight() == 0 && r->Ok_0.completed() == 0 && r->Ok_0.received() == 0
                && !r->Ok_0.failed(),
    {
        if header.content_format == DataFormatType::Unknown {
            return Err(TransferErrorKind::CanisterStableStorageNotInitialized);
        }
        let header_len: u64 = header.num_all_fields_bytes();
        if header.content_length > u64::MAX - header_len || header.content_length + header_len
            > usize::MAX as u64 {
            return Err(TransferErrorKind::StableStorageTooLarge(header.content_length));
        }
        let total: u64 = header_len + header.content_length;
        Ok(
            Backup {
                total,
                window_count: total / BACKUP_CHUNK_SIZE + 1,
                next_index: 0,
                in_flight: 0,
                completed: 0,
                received: 0,
                failed: false,
            },
        )
    }

    /// The length of the region: header and content.
    pub fn total_len(&self) -> (r: u64)
        ensures
            r == self.total(),
    {
        self.total
    }

    /// The number of fetches that are in flight.
    pub fn fetches_in_flight(&self) -> (r: u64)
        ensures
            r == self.in_flight(),
    {
        self.in_flight
    }

    /// The number of bytes that have come back, where a `usize` holds it.
    pub fn total_written(&self) -> (r: usize)
        ensures
            r == if self.received() <= usize::MAX {
                self.received()
            } else {
                usize::MAX as nat
            },
    {
        if self.received > usize::MAX as u128 {
            usize::MAX
        } else {
            self.received as usize
        }
    }

    /// Decide what to do next.
    ///
    /// Windows are asked for in the order of their offsets, each window that holds a byte
    /// once, and never more than `MAX_IN_FLIGHT` at a time. After a failure nothing more is
    /// asked for.
    pub fn next_action(&mut self) -> (action: BackupAction)
        requires
            old(self).wf(),
        ensures
            final(self).wf(),
            final(self).total() == old(self).total(),
            final(self).completed() == old(self).completed(),
            final(self).received() == old(self).received(),
            final(self).failed() == old(self).failed(),
            final(self).in_flight() <= MAX_IN_FLIGHT,
            old(self).failed() <==> action == BackupAction::Abort,
            old(self).spec_can_fetch() <==> action is Fetch,
            !old(self).failed() && !old(self).spec_can_fetch() && old(self).in_flight() > 0
                <==> action == BackupAction::Wait,
            !old(self).failed() && !old(self).spec_can_fetch() && old(self).in_flight() == 0
                <==> action == BackupAction::Finish,
            action == BackupAction::Abort ==> *final(self) == *old(self),
            action is Fetch ==> {
                let index = old(self).next_index();
                let window = action->Fetch_0;
                &&& index < old(self).window_count()
                &&& window.offset == spec_window_offset(0, BACKUP_CHUNK_SIZE as nat, index)
                &&& window.len == spec_window_len(
                    0,
                    old(self).total(),
                    BACKUP_CHUNK_SIZE as nat,
                    index,
                )
                &&& window.len > 0
                &&& final(self).next_index() == index + 1
                &&& final(self).in_flight() == old(self).in_flight() + 1
            },
            action == BackupAction::Wait ==> final(self).in_flight() == old(self).in_flight()
                && final(self).in_flight() > 0 && (final(self).in_flight() == MAX_IN_FLIGHT
                || final(self).next_index() == final(self).window_count()),
            action == BackupAction::Finish ==> final(self).in_flight() == 0 && final(self).next_index() == final(self).window_count(),
            action == BackupAction::Wait || action == BackupAction::Finish ==> forall|index: nat|
                old(self).next_index() <= index < final(self).next_index() ==> spec_window_len(
                    0,
                    old(self).total(),
                    BACKUP_CHUNK_SIZE as nat,
                    index,
                ) == 0,
    {
        if self.failed {
            return BackupAction::Abort;
        }
        if self.in_flight < MAX_IN_FLIGHT && self.next_index < self.window_count {
            let offset: u64 = self.next_index * BACKUP_CHUNK_SIZE;
            if offset < self.total {
                let left: u64 = self.total - offset;
                let len: u64 = if left < BACKUP_CHUNK_SIZE {
                    left
                } else {
                    BACKUP_CHUNK_SIZE
                };
                self.next_index = self.next_index + 1;
                self.in_flight = self.in_flight + 1;
                return BackupAction::Fetch(Window { offset, len });
            }
            self.next_index = self.window_count;
        }
        if self.in_flight > 0 {
            BackupAction::Wait
        } else {
            BackupAction::Finish
        }
    }

    /// Take note that a fetch came back with `len` bytes. Without a fetch in flight nothing
    /// is noted.
    pub fn chunk_received(&mut self, len: usize)
        requires
            old(self).wf(),
        ensures
            final(self).wf(),
            final(self).total() == old(self).total(),
            final(self).next_index() == old(self).next_index(),
            final(self).failed() == old(self).failed(),
            old(self).in_flight() > 0 ==> final(self).in_flight() == old(self).in_flight() - 1
                && final(self).completed() == old(self).completed() + 1 && final(self).received()
                == old(self).received() + len,
            old(self).in_flight() == 0 ==> *final(self) == *old(self),
    {
        if self.in_flight > 0 {
            assert(self.received + len <= (self.completed + 1) * usize::MAX) by (nonlinear_arith)
                requires
                    self.received <= self.completed * usize::MAX,
                    len <= usize::MAX,
            ;
            assert((self.completed + 1) * usize::MAX <= u128::MAX) by (nonlinear_arith)
                requires
                    self.completed + 1 <= u64::MAX,
                    usize::MAX <= u64::MAX,
            ;
            self.in_flight = self.in_flight - 1;
            self.completed = self.completed + 1;
            self.received = self.received + len as u128;
        }
    }

    /// Take note that a fetch failed.
    pub fn fetch_failed(&mut self)
        requires
            old(self).wf(),
        ensures
            final(self).wf(),
            final(self).failed(),
            final(self).total() == old(self).total(),
            final(self).next_index() == old(self).next_index(),
            final(self).in_flight() == old(self).in_flight(),
            final(self).completed() == old(self).completed(),
            final(self).received() == old(self).received(),
    {
        self.failed = true;
    }

    /// Compare the number of bytes that came back with the length of the region.
    pub fn finish(&self) -> (r: Result<(), TransferErrorKind>)
        requires
            self.wf(),
        ensures
            self.received() == self.total() ==> r is Ok,
            self.received() != self.total() ==> r == Err::<(), TransferErrorKind>(
                TransferErrorKind::BackupLengthMismatch(
                    self.total() as usize,
                    if self.received() <= usize::MAX {
                        self.received() as usize
                    } else {
                        usize::MAX
                    },
                ),
            ),
    {
        if self.received == self.total as u128 {
            Ok(())
        } else {
            Err(TransferErrorKind::BackupLengthMismatch(self.total as usize, self.total_written()))
        }
    }
}

/// How far a restore has come.
#[derive(Debug, Clone, Copy, PartialEq, Eq, Structural)]
pub enum RestorePhase {
    /// The canister has yet to grow its stable memory.
    InitStorage,
    /// The header has yet to be uploaded.
    UploadHeader,
    /// The windows of the content are being uploaded.
    UploadWindows,
    /// Every window has been uploaded; the canister has yet to be told.
    SetRestoreFlag,
    /// The restore is complete.
    Done,
    /// A call failed for good.
    Failed,
}

/// What a restore is to do next.
#[derive(Debug, Clone, Copy, PartialEq, Eq, Structural)]
pub enum RestoreAction {
    /// Tell the canister to make room for a region of this many bytes.
    InitStorage(u64),
    /// Upload the bytes of the header at offset 0.
    UploadHeader,
    /// Read the bytes of this window from the input and upload them at its offset.
    Upload(Window),
    /// Wait for an upload that is in flight to end.
    Wait,
    /// Tell the canister that its stable storage has been restored.
    SetRestoreFlag,
    /// Nothing is left to do.
    Done,
    /// A call failed for good: upload nothing more and hand its error on.
    Abort,
}

/// The plan of a restore: the header of the region, how far the restore has come, which
/// windows of the content have been handed out, and how many uploads are in flight.
#[derive(Debug, Clone, Copy)]
pub struct Restore {
    header: Header,
    start: u64,
    total: u64,
    storage_len: u64,
    window_count: u64,
    phase: RestorePhase,
    next_index: u64,
    in_flight: u64,
}

impl Restore {
    /// The header of the region.
    pub closed spec fn header(&self) -> Header {
        self.header
    }

    /// The offset at which the first window of the content is uploaded.
    pub closed spec fn start(&self) -> nat {
        self.start as nat
    }

    /// The length of the region that is uploaded: the written header and the content.
    pub closed spec fn total(&self) -> nat {
        self.total as nat
    }

    /// The length that the canister is asked to make room for.
    pub closed spec fn storage_len(&self) -> nat {
        self.storage_len as nat
    }

    /// How far the restore has come.
    pub closed spec fn phase(&self) -> RestorePhase {
        self.phase
    }

    /// The index of the next window to look at.
    pub closed spec fn next_index(&self) -> nat {
        self.next_index as nat
    }

    /// The number of uploads that are in flight.
    pub closed spec fn in_flight(&self) -> nat {
        self.in_flight as nat
    }

    /// The number of windows of the content.
    pub open spec fn window_count(&self) -> nat {
        spec_window_count(self.start(), self.total(), RESTORE_CHUNK_SIZE as nat)
    }

    /// Whether the next window is uploaded now: the windows are being uploaded, fewer than
    /// `MAX_IN_FLIGHT` uploads are in flight, and there is a window left that holds a byte.
    pub open spec fn spec_can_upload(&self) -> bool {
        &&& self.phase() == RestorePhase::UploadWindows
        &&& self.in_flight() < MAX_IN_FLIGHT
        &&& self.next_index() < self.window_count()
        &&& spec_window_len(
            self.start(),
            self.total(),
            RESTORE_CHUNK_SIZE as nat,
            self.next_index(),
        ) > 0
    }

    /// What holds of every plan that this module hands out.
    pub closed spec fn wf(&self) -> bool {
        &&& self.total == 40 + self.header.content_length
        &&& 40 <= self.start <= self.total
        &&& self.storage_len >= self.total
        &&& self.storage_len >= self.header.spec_num_content_and_header_bytes()
        &&& self.window_count == (self.total - self.start) / RESTORE_CHUNK_SIZE as int + 1
        &&& self.next_index <= self.window_count
        &&& self.in_flight <= MAX_IN_FLIGHT
        &&& self.in_flight <= self.next_index
        &&& self.phase == RestorePhase::InitStorage || self.phase == RestorePhase::UploadHeader
            ==> self.next_index == 0
        &&& self.phase == RestorePhase::SetRestoreFlag || self.phase == RestorePhase::Done
            ==> self.next_index == self.window_count && self.in_flight == 0
    }

    /// The length that the canister is asked to make room for, where a restore of the region
    /// that the header describes can be made.
    pub open spec fn spec_storage_len(header: Header) -> Result<u64, TransferErrorKind> {
        if 40 + header.content_length > u64::MAX || header.spec_num_content_and_header_bytes()
            > u64::MAX {
            Err(TransferErrorKind::StableStorageTooLarge(header.content_length))
        } else if header.spec_num_content_and_header_bytes() > 40 + header.content_length {
            Ok(header.spec_num_content_and_header_bytes() as u64)
        } else {
            Ok((40 + header.content_length) as u64)
        }
    }

    /// The offset at which the first window of the content is uploaded: right behind the
    /// header where none is given, and at the end of the region where the one that is given
    /// lies behind it. An offset inside the header is refused.
    pub open spec fn spec_start(header: Header, restore_offset: Option<u64>) -> Result<
        u64,
        TransferErrorKind,
    > {
        match restore_offset {
            None => Ok(40),
            Some(offset) => if offset < 40 {
                Err(TransferErrorKind::RestoreOffsetInsideHeader(offset))
            } else if offset > 40 + header.content_length {
                Ok((40 + header.content_length) as u64)
            } else {
                Ok(offset)
            },
        }
    }

    /// Plan the restore of the region that `header` describes.
    pub fn new(header: Header) -> (r: Result<Self, TransferErrorKind>)
        ensures
            Self::spec_storage_len(header) is Err ==> r is Err && r->Err_0
                == Self::spec_storage_len(header)->Err_0,
            Self::spec_storage_len(header) is Ok ==> r is Ok && r->Ok_0.wf() && r->Ok_0.header()
                == header && r->Ok_0.total() == 40 + header.content_length && r->Ok_0.start()
                == 40 && r->Ok_0.storage_len() == Self::spec_storage_len(header)->Ok_0
                && r->Ok_0.phase() == RestorePhase::InitStorage && r->Ok_0.next_index() == 0
                && r->Ok_0.in_flight() == 0,
    {
        Self::new_from_offset(header, None)
    }

    /// Plan the restore of the region that `header` describes, with the windows of the
    /// content beginning at `restore_offset`, or right behind the header where no offset is
    /// given. A region that cannot be addressed is refused first, then an offset inside the
    /// header.
    pub fn new_from_offset(header: Header, restore_offset: Option<u64>) -> (r: Result<
        Self,
        TransferErrorKind,
    >)
        ensures
            Self::spec_storage_len(header) is Err ==> r is Err && r->Err_0
                == Self::spec_storage_len(header)->Err_0,
            Self::spec_storage_len(header) is Ok && Self::spec_start(header, restore_offset)
                is Err ==> r is Err && r->Err_0 == Self::spec_start(header, restore_offset)->Err_0,
            Self::spec_storage_len(header) is Ok && Self::spec_start(header, restore_offset)
                is Ok ==> r is Ok && r->Ok_0.wf() && r->Ok_0.header() == header
                && r->Ok_0.total() == 40 + header.content_length && r->Ok_0.start()
                == Self::spec_start(header, restore_offset)->Ok_0 && r->Ok_0.storage_len()
                == Self::spec_storage_len(header)->Ok_0 && r->Ok_0.phase()
                == RestorePhase::InitStorage && r->Ok_0.next_index() == 0 && r->Ok_0.in_flight()
                == 0,
    {
        let header_len: u64 = header.num_all_fields_bytes();
        if header.content_length > u64::MAX - header_len {
            return Err(TransferErrorKind::StableStorageTooLarge(header.content_length));
        }
        let total: u64 = header_len + header.content_length;
        let declared: u64 = match header.checked_num_content_and_header_bytes() {
            Some(len) => len,
            None => {
                return Err(TransferErrorKind::StableStorageTooLarge(header.content_length));
            },
        };
        let storage_len: u64 = if declared > total {
            declared
        } else {
            total
        };
        let start: u64 = match restore_offset {
            None => header_len,
            Some(offset) => {
                if offset < header_len {
                    return Err(TransferErrorKind::RestoreOffsetInsideHeader(offset));
                }
                if offset > total {
                    total
                } else {
                    offset
                }
            },
        };
        Ok(
            Restore {
                header,
                start,
                total,
                storage_len,
                window_count: (total - start) / RESTORE_CHUNK_SIZE + 1,
                phase: RestorePhase::InitStorage,
                next_index: 0,
                in_flight: 0,
            },
        )
    }

    /// The bytes of the header, which are uploaded at offset 0.
    pub fn header_bytes(&self) -> (bytes: Vec<u8>)
        ensures
            bytes@ == self.header().spec_as_bytes(),
            bytes@.len() == 40,
    {
        self.header.as_bytes()
    }

    /// The length of the region that is uploaded: the written header and the content.
    pub fn total_len(&self) -> (r: u64)
        ensures
            r == self.total(),
    {
        self.total
    }

    /// The offset at which the first window of the content is uploaded.
    pub fn start_offset(&self) -> (r: u64)
        ensures
            r == self.start(),
    {
        self.start
    }

    /// The number of uploads that are in flight.
    pub fn uploads_in_flight(&self) -> (r: u64)
        ensures
            r == self.in_flight(),
    {
        self.in_flight
    }

    /// How far the restore has come.
    pub fn current_phase(&self) -> (r: RestorePhase)
        ensures
            r == self.phase(),
    {
        self.phase
    }

    /// Decide what to do next.
    ///
    /// The canister first makes room, then takes the header, then the windows of the content
    /// in the order of their offsets, each window that holds a byte once and never more than
    /// `MAX_IN_FLIGHT` at a time, and is told at the end that the restore is complete. After
    /// a failure nothing more is uploaded.
    pub fn next_action(&mut self) -> (action: RestoreAction)
        requires
            old(self).wf(),
        ensures
            final(self).wf(),
            final(self).header() == old(self).header(),
            final(self).total() == old(self).total(),
            final(self).storage_len() == old(self).storage_len(),
            final(self).start() == old(self).start(),
            final(self).in_flight() <= MAX_IN_FLIGHT,
            old(self).phase() == RestorePhase::InitStorage ==> action == RestoreAction::InitStorage(
                old(self).storage_len() as u64,
            ) && *final(self) == *old(self),
            old(self).phase() == RestorePhase::UploadHeader ==> action
                == RestoreAction::UploadHeader && *final(self) == *old(self),
            old(self).phase() == RestorePhase::SetRestoreFlag ==> action
                == RestoreAction::SetRestoreFlag && *final(self) == *old(self),
            old(self).phase() == RestorePhase::Done ==> action == RestoreAction::Done && *final(self) == *old(self),
            old(self).phase() == RestorePhase::Failed ==> action == RestoreAction::Abort && *final(self) == *old(self),
            old(self).spec_can_upload() <==> action is Upload,
            old(self).phase() == RestorePhase::UploadWindows && !old(self).spec_can_upload()
                && old(self).in_flight() > 0 <==> action == RestoreAction::Wait,
            old(self).phase() == RestorePhase::UploadWindows && !old(self).spec_can_upload()
                && old(self).in_flight() == 0 ==> action == RestoreAction::SetRestoreFlag,
            old(self).phase() == RestorePhase::UploadWindows && action is Upload ==> {
                let index = old(self).next_index();
                let window = action->Upload_0;
                &&& index < old(self).window_count()
                &&& window.offset == spec_window_offset(
                    old(self).start(),
                    RESTORE_CHUNK_SIZE as nat,
                    index,
                )
                &&& window.len == spec_window_len(
                    old(self).start(),
                    old(self).total(),
                    RESTORE_CHUNK_SIZE as nat,
                    index,
                )
                &&& window.len > 0
                &&& final(self).next_index() == index + 1
                &&& final(self).in_flight() == old(self).in_flight() + 1
                &&& final(self).phase() == RestorePhase::UploadWindows
            },
            old(self).phase() == RestorePhase::UploadWindows && action == RestoreAction::Wait
                ==> final(self).phase() == RestorePhase::UploadWindows && final(self).in_flight()
                == old(self).in_flight() && final(self).in_flight() > 0 && (final(self).in_flight() == MAX_IN_FLIGHT || final(self).next_index() == final(self).window_count()),
            old(self).phase() == RestorePhase::UploadWindows && action
                == RestoreAction::SetRestoreFlag ==> final(self).phase()
                == RestorePhase::SetRestoreFlag && old(self).in_flight() == 0,
            old(self).phase() == RestorePhase::UploadWindows && !(action is Upload) ==> forall|
                index: nat,
            |
                old(self).next_index() <= index < final(self).next_index() ==> spec_window_len(
                    old(self).start(),
                    old(self).total(),
                    RESTORE_CHUNK_SIZE as nat,
                    index,
                ) == 0,
    {
        match self.phase {
            RestorePhase::InitStorage => RestoreAction::InitStorage(self.storage_len),
            RestorePhase::UploadHeader => RestoreAction::UploadHeader,
            RestorePhase::SetRestoreFlag => RestoreAction::SetRestoreFlag,
            RestorePhase::Done => RestoreAction::Done,
            RestorePhase::Failed => RestoreAction::Abort,
            RestorePhase::UploadWindows => {
                if self.in_flight < MAX_IN_FLIGHT && self.next_index < self.window_count {
                    let offset: u64 = self.start + self.next_index * RESTORE_CHUNK_SIZE;
                    if offset < self.total {
                        let left: u64 = self.total - offset;
                        let len: u64 = if left < RESTORE_CHUNK_SIZE {
                            left
                        } else {
                            RESTORE_CHUNK_SIZE
                        };
                        self.next_index = self.next_index + 1;
                        self.in_flight = self.in_flight + 1;
                        return RestoreAction::Upload(Window { offset, len });
                    }
                    self.next_index = self.window_count;
                }
                if self.in_flight > 0 {
                    RestoreAction::Wait
                } else {
                    self.phase = RestorePhase::SetRestoreFlag;
                    RestoreAction::SetRestoreFlag
                }
            },
        }
    }

    /// Take note that the canister has made room.
    pub fn storage_initialized(&mut self)
        requires
            old(self).wf(),
        ensures
            final(self).wf(),
            old(self).phase() == RestorePhase::InitStorage ==> final(self).phase()
                == RestorePhase::UploadHeader,
            old(self).phase() != RestorePhase::InitStorage ==> final(self).phase() == old(self).phase(),
            final(self).header() == old(self).header(),
            final(self).total() == old(self).total(),
            final(self).start() == old(self).start(),
            final(self).storage_len() == old(self).storage_len(),
            final(self).next_index() == old(self).next_index(),
            final(self).in_flight() == old(self).in_flight(),
    {
        if self.phase == RestorePhase::InitStorage {
            self.phase = RestorePhase::UploadHeader;
        }
    }

    /// Take note that the header has been uploaded.
    pub fn header_uploaded(&mut self)
        requires
            old(self).wf(),
        ensures
            final(self).wf(),
            old(self).phase() == RestorePhase::UploadHeader ==> final(self).phase()
                == RestorePhase::UploadWindows,
            old(self).phase() != RestorePhase::UploadHeader ==> final(self).phase() == old(self).phase(),
            final(self).header() == old(self).header(),
            final(self).total() == old(self).total(),
            final(self).start() == old(self).start(),
            final(self).storage_len() == old(self).storage_len(),
            final(self).next_index() == old(self).next_index(),
            final(self).in_flight() == old(self).in_flight(),
    {
        if self.phase == RestorePhase::UploadHeader {
            self.phase = RestorePhase::UploadWindows;
        }
    }

    /// Take note that the upload of a window has succeeded. Without an upload in flight
    /// nothing is noted.
    pub fn window_uploaded(&mut self)
        requires
            old(self).wf(),
        ensures
            final(self).wf(),
            old(self).in_flight() > 0 ==> final(self).in_flight() == old(self).in_flight() - 1,
            old(self).in_flight() == 0 ==> final(self).in_flight() == 0,
            final(self).phase() == old(self).phase(),
            final(self).header() == old(self).header(),
            final(self).total() == old(self).total(),
            final(self).start() == old(self).start(),
            final(self).storage_len() == old(self).storage_len(),
            final(self).next_index() == old(self).next_index(),
    {
        if self.in_flight > 0 {
            self.in_flight = self.in_flight - 1;
        }
    }

    /// Take note that the canister has been told that its stable storage has been restored.
    pub fn restore_flag_set(&mut self)
        requires
            old(self).wf(),
        ensures
            final(self).wf(),
            old(self).phase() == RestorePhase::SetRestoreFlag ==> final(self).phase()
                == RestorePhase::Done,
            old(self).phase() != RestorePhase::SetRestoreFlag ==> final(self).phase() == old(self).phase(),
            final(self).header() == old(self).header(),
            final(self).total() == old(self).total(),
            final(self).start() == old(self).start(),
            final(self).storage_len() == old(self).storage_len(),
            final(self).next_index() == old(self).next_index(),
            final(self).in_flight() == old(self).in_flight(),
    {
        if self.phase == RestorePhase::SetRestoreFlag {
            self.phase = RestorePhase::Done;
        }
    }

    /// Take note that a call failed for good. A restore that is complete stays complete.
    pub fn call_failed(&mut self)
        requires
            old(self).wf(),
        ensures
            final(self).wf(),
            old(self).phase() != RestorePhase::Done ==> final(self).phase()
                == RestorePhase::Failed,
            old(self).phase() == RestorePhase::Done ==> final(self).phase() == RestorePhase::Done,
            final(self).header() == old(self).header(),
            final(self).total() == old(self).total(),
            final(self).start() == old(self).start(),
            final(self).storage_len() == old(self).storage_len(),
            final(self).next_index() == old(self).next_index(),
            final(self).in_flight() == old(self).in_flight(),
    {
        if self.phase != RestorePhase::Done {
            self.phase = RestorePhase::Failed;
        }
    }
}

/// The product of `a` and `b`, or the largest `u64` where the product is larger.
pub open spec fn spec_saturating_mul(a: u64, b: u64) -> u64 {
    if a * b > u64::MAX {
        u64::MAX
    } else {
        (a * b) as u64
    }
}

/// The power of `base` that an exponential back-off has reached after `past_attempts`
/// delays: it grows by the factor `base` until it exceeds `max_delay`.
pub open spec fn spec_backoff_current(base: u64, max_delay: u64, past_attempts: nat) -> u64
    decreases past_attempts,
{
    if past_attempts == 0 {
        base
    } else {
        let before = spec_backoff_current(base, max_delay, (past_attempts - 1) as nat);
        if before > max_delay {
            before
        } else {
            spec_saturating_mul(before, base)
        }
    }
}

/// The delay in milliseconds that an exponential back-off gives after `past_attempts`
/// delays.
pub open spec fn spec_backoff_millis(base: u64, max_delay: u64, past_attempts: nat) -> u64 {
    let current = spec_backoff_current(base, max_delay, past_attempts);
    if current > max_delay {
        max_delay
    } else {
        current
    }
}

/// The delay that an exponential back-off gives after `past_attempts` delays.
///
/// Builds `tokio_retry::strategy::ExponentialBackoff::from_millis(base)` with
/// `max_delay(max_delay)` and takes its item at `past_attempts`. The strategy starts at
/// `base`, yields the current value or `max_delay` where the value exceeds it, and
/// multiplies the value by `base`, saturating, each time it did not exceed `max_delay`.
#[verifier::external_body]
fn exponential_backoff_millis(base: u64, max_delay: u64, past_attempts: usize) -> (delay: u64)
    ensures
        delay == spec_backoff_millis(base, max_delay, past_attempts as nat),
{
    let mut strategy = tokio_retry::strategy::ExponentialBackoff::from_millis(base).max_delay(
        std::time::Duration::from_millis(max_delay),
    );
    match strategy.nth(past_attempts) {
        Some(delay) => delay.as_millis() as u64,
        None => max_delay,
    }
}

/// A random part of a delay.
///
/// Calls `tokio_retry::strategy::jitter`, which multiplies the delay by a random factor
/// between zero and one. Of the result only this is claimed: it is not longer than the
/// delay.
#[verifier::external_body]
fn jittered_millis(delay: u64) -> (jittered: u64)
    requires
        delay <= RETRY_MAX_DELAY_MILLIS,
    ensures
        jittered <= delay,
{
    tokio_retry::strategy::jitter(std::time::Duration::from_millis(delay)).as_millis() as u64
}

/// The back-off before the retry that follows `failed_attempts` failed attempts to upload a
/// window: the base delay after the first, the longest delay after every further one.
pub open spec fn spec_retry_backoff(failed_attempts: u32) -> u64 {
    if failed_attempts <= 1 {
        RETRY_BASE_MILLIS
    } else {
        RETRY_MAX_DELAY_MILLIS
    }
}

/// From its second item on, the back-off of an upload has reached its longest delay.
pub proof fn lemma_retry_backoff(past_attempts: nat)
    ensures
        spec_backoff_millis(RETRY_BASE_MILLIS, RETRY_MAX_DELAY_MILLIS, past_attempts) == if
            past_attempts == 0 {
            RETRY_BASE_MILLIS
        } else {
            RETRY_MAX_DELAY_MILLIS
        },
        past_attempts > 0 ==> spec_backoff_current(
            RETRY_BASE_MILLIS,
            RETRY_MAX_DELAY_MILLIS,
            past_attempts,
        ) == 4000000,
    decreases past_attempts,
{
    if past_attempts > 1 {
        lemma_retry_backoff((past_attempts - 1) as nat);
    } else if past_attempts == 1 {
        assert(spec_backoff_current(RETRY_BASE_MILLIS, RETRY_MAX_DELAY_MILLIS, 0)
            == RETRY_BASE_MILLIS);
    }
}

/// The back-off before the retry that follows `failed_attempts` failed attempts to upload a
/// window, or `None` where the window is not tried again.
pub fn retry_backoff(failed_attempts: u32) -> (r: Option<u64>)
    ensures
        failed_attempts == 0 || failed_attempts >= MAX_ATTEMPTS ==> r is None,
        0 < failed_attempts < MAX_ATTEMPTS ==> r == Some(spec_retry_backoff(failed_attempts)),
{
    if failed_attempts == 0 || failed_attempts >= MAX_ATTEMPTS {
        None
    } else {
        proof {
            lemma_retry_backoff((failed_attempts - 1) as nat);
        }
        Some(
            exponential_backoff_millis(
                RETRY_BASE_MILLIS,
                RETRY_MAX_DELAY_MILLIS,
                (failed_attempts - 1) as usize,
            ),
        )
    }
}

/// The delay in milliseconds before the retry that follows `failed_attempts` failed attempts
/// to upload a window: a random part of the back-off. `None` says that the window is not
/// tried again, which fails the restore.
pub fn retry_delay(failed_attempts: u32) -> (r: Option<u64>)
    ensures
        failed_attempts == 0 || failed_attempts >= MAX_ATTEMPTS ==> r is None,
        0 < failed_attempts < MAX_ATTEMPTS ==> r is Some && r->Some_0 <= spec_retry_backoff(
            failed_attempts,
        ),
{
    match retry_backoff(failed_attempts) {
        Some(delay) => Some(jittered_millis(delay)),
        None => None,
    }
}

/// The digit that stands for `nibble` in lower-case hexadecimal.
pub open spec fn spec_hex_digit(nibble: nat) -> char {
    if nibble == 10 {
        'a'
    } else if nibble == 11 {
        'b'
    } else if nibble == 12 {
        'c'
    } else if nibble == 13 {
        'd'
    } else if nibble == 14 {
        'e'
    } else if nibble == 15 {
        'f'
    } else {
        crate::text::spec_digit(nibble)
    }
}

/// The bytes in lower-case hexadecimal: two digits for each byte, the high one first.
pub open spec fn spec_hex(bytes: Seq<u8>) -> Seq<char>
    decreases bytes.len(),
{
    if bytes.len() == 0 {
        Seq::empty()
    } else {
        spec_hex(bytes.drop_last()).push(spec_hex_digit(bytes.last() as nat / 16)).push(
            spec_hex_digit(bytes.last() as nat % 16),
        )
    }
}

/// The bytes in lower-case hexadecimal.
///
/// Calls `hex::encode`, which writes two digits of `0123456789abcdef` for each byte, the
/// high one first.
#[verifier::external_body]
fn hex_encode(bytes: &[u8]) -> (text: String)
    ensures
        text@ == spec_hex(bytes@),
{
    hex::encode(bytes)
}

/// The text of a time, given in nanoseconds since the Unix epoch, in a format of the `time`
/// crate, or nothing where the format is not one or the time cannot be written in it.
pub uninterp spec fn formatted_timestamp(nanos: u64, format: Seq<char>) -> Option<Seq<char>>;

/// Write a time, given in nanoseconds since the Unix epoch, in a format of the `time` crate.
///
/// Calls `time::format_description::parse_borrowed`, `OffsetDateTime::from_unix_timestamp_nanos`
/// and `OffsetDateTime::format`. The text is a function of the time and the format alone;
/// it is named `formatted_timestamp`, and an error of any of the calls is handed on as
/// `None`.
#[verifier::external_body]
fn format_timestamp(nanos: u64, format: &str) -> (text: Option<String>)
    ensures
        formatted_timestamp(nanos, format@) == match text {
            Some(text) => Some(text@),
            None => None,
        },
{
    let items = match time::format_description::parse_borrowed::<1>(format) {
        Ok(items) => items,
        Err(_) => return None,
    };
    match time::OffsetDateTime::from_unix_timestamp_nanos(i128::from(nanos)) {
        Ok(time) => time.format(&items).ok(),
        Err(_) => None,
    }
}

/// The name of a backup file: the prefix, the first five hexadecimal digits of the module
/// hash and the text of the time of the last upgrade, with `_` between them.
pub open spec fn spec_backup_file_name(prefix: Seq<char>, module_hash: Seq<u8>, time: Seq<char>) -> Seq<
    char,
> {
    prefix + "_"@ + spec_hex(module_hash).take(5) + "_"@ + time
}

/// The name of a backup file once the time of the last upgrade has been written, or nothing
/// where the module hash has fewer than three bytes or the time could not be written.
pub fn backup_file_name(prefix: &str, module_hash: &[u8], time: Option<String>) -> (r: Option<
    String,
>)
    ensures
        module_hash@.len() < 3 || time is None ==> r is None,
        module_hash@.len() >= 3 && time is Some ==> r is Some && r->Some_0@
            == spec_backup_file_name(prefix@, module_hash@, time->Some_0@),
{
    if module_hash.len() < 3 {
        return None;
    }
    let time = match time {
        Some(time) => time,
        None => {
            return None;
        },
    };
    let hash = hex_encode(module_hash);
    proof {
        lemma_hex_len(module_hash@);
    }
    let mut name = String::from_str(prefix);
    name.append("_");
    name.append(hash.as_str().substring_char(0, 5));
    name.append("_");
    name.append(time.as_str());
    Some(name)
}

/// Hexadecimal takes two digits for each byte.
pub proof fn lemma_hex_len(bytes: Seq<u8>)
    ensures
        spec_hex(bytes).len() == 2 * bytes.len(),
    decreases bytes.len(),
{
    if bytes.len() > 0 {
        lemma_hex_len(bytes.drop_last());
    }
}

/// Return the default file name to be used for stable storage backups, from the module
/// hash of the canister and the time of its last upgrade: the time is written as year,
/// month and day, then hour, minute and second.
pub fn get_default_stable_storage_backup_file_name(
    prefix: &str,
    module_hash: &[u8],
    last_upgraded: u64,
) -> (r: Option<String>)
    ensures
        module_hash@.len() < 3 || formatted_timestamp(
            last_upgraded,
            "[year]-[month]-[day]_[hour]-[minute]-[second]"@,
        ) is None ==> r is None,
        module_hash@.len() >= 3 && formatted_timestamp(
            last_upgraded,
            "[year]-[month]-[day]_[hour]-[minute]-[second]"@,
        ) is Some ==> r is Some && r->Some_0@ == spec_backup_file_name(
            prefix@,
            module_hash@,
            formatted_timestamp(
                last_upgraded,
                "[year]-[month]-[day]_[hour]-[minute]-[second]"@,
            )->Some_0,
        ),
{
    let time = format_timestamp(last_upgraded, "[year]-[month]-[day]_[hour]-[minute]-[second]");
    backup_file_name(prefix, module_hash, time)
}

impl TransferErrorKind {
    /// The text of this error.
    pub open spec fn spec_to_string(self) -> Seq<char> {
        match self {
            TransferErrorKind::BackupLengthMismatch(expected, actual) =>
                "Backup length mismatch expected "@ + crate::text::spec_decimal(expected as nat)
                + " actual "@ + crate::text::spec_decimal(actual as nat),
            TransferErrorKind::CanisterStableStorageNotInitialized =>
                "Canister stable storage not initialized"@,
            TransferErrorKind::StableStorageTooLarge(content_length) =>
                "Canister stable storage too large: content length "@
                + crate::text::spec_decimal(content_length as nat),
            TransferErrorKind::RestoreOffsetInsideHeader(offset) =>
                "Restore offset inside the header: "@ + crate::text::spec_decimal(offset as nat),
        }
    }

    /// The text of this error.
    pub fn to_string(&self) -> (text: String)
        ensures
            text@ == self.spec_to_string(),
    {
        match self {
            TransferErrorKind::BackupLengthMismatch(expected, actual) => {
                let mut text = String::from_str("Backup length mismatch expected ");
                crate::text::push_decimal(&mut text, *expected as u64);
                text.append(" actual ");
                crate::text::push_decimal(&mut text, *actual as u64);
                text
            },
            TransferErrorKind::CanisterStableStorageNotInitialized => String::from_str(
                "Canister stable storage not initialized",
            ),
            TransferErrorKind::StableStorageTooLarge(content_length) => {
                let mut text = String::from_str(
                    "Canister stable storage too large: content length ",
                );
                crate::text::push_decimal(&mut text, *content_length);
                text
            },
            TransferErrorKind::RestoreOffsetInsideHeader(offset) => {
                let mut text = String::from_str("Restore offset inside the header: ");
                crate::text::push_decimal(&mut text, *offset);
                text
            },
        }
    }
}

/// A restore that begins right behind the header rebuilds the region in the canister: once
/// the header has been uploaded at offset 0 and every window of the content at its own
/// offset, in any order and any of them more than once, stable memory that had room for the
/// region begins with the header and the content, and is as it was behind them.
pub proof fn lemma_restore_rebuilds_region(
    memory: Seq<u8>,
    header: Header,
    content: Seq<u8>,
    order: Seq<nat>,
)
    requires
        content.len() == header.content_length,
        40 + content.len() <= memory.len(),
        spec_covers_all_windows(order, 40, 40 + content.len(), RESTORE_CHUNK_SIZE as nat),
    ensures
        ({
            let region = header.spec_as_bytes() + content;
            let restored = spec_apply_windows(
                write_at(memory, 0, header.spec_as_bytes()),
                region,
                40,
                40 + content.len(),
                RESTORE_CHUNK_SIZE as nat,
                order,
            );
            &&& restored.len() == memory.len()
            &&& restored.subrange(0, 40 + content.len() as int) == region
            &&& restored.subrange(40 + content.len() as int, memory.len() as int)
                == memory.subrange(40 + content.len() as int, memory.len() as int)
        }),
{
    crate::header::lemma_encoded_len(header);
    let region = header.spec_as_bytes() + content;
    let total = 40 + content.len();
    let with_header = write_at(memory, 0, header.spec_as_bytes());
    let restored = spec_apply_windows(
        with_header,
        region,
        40,
        total,
        RESTORE_CHUNK_SIZE as nat,
        order,
    );
    lemma_windows_rebuild_in_any_order(
        with_header,
        region,
        40,
        total,
        RESTORE_CHUNK_SIZE as nat,
        order,
    );
    assert(with_header.len() == memory.len());
    assert(restored.len() == memory.len());
    assert(restored.subrange(0, total as int) =~= region) by {
        assert forall|j: int| 0 <= j < total implies restored[j] == region[j] by {
            if j < 40 {
                assert(restored[j] == with_header[j]);
            }
        }
    }
    assert(restored.subrange(total as int, memory.len() as int) =~= memory.subrange(
        total as int,
        memory.len() as int,
    )) by {
        assert forall|j: int| total <= j < memory.len() implies restored[j] == memory[j] by {
            assert(restored[j] == with_header[j]);
        }
    }
}

} // verus!
