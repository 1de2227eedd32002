//! Common stable storage logic for use in canisters.
//!
//! Stable memory is a run of whole pages addressed by absolute offset. It only ever grows,
//! and a read or a write must stay inside it.

pub mod v1;
pub mod v1_v2;
pub mod v2;

use crate::header::Header;
use crate::movable_io::write_at;
use crate::transient::Transient;
use crate::WASM_PAGE_SIZE_IN_BYTES;
use vstd::prelude::*;

verus! {

/// Why an operation on stable memory was refused.
#[derive(Debug, Clone, Copy, PartialEq, Eq, Structural)]
pub enum StableMemoryError {
    /// The window does not lie inside stable memory.
    OutOfBounds,
    /// Stable memory cannot grow that far.
    OutOfMemory,
    /// The compressed window at this index is not a gzip stream.
    InvalidCompressedData(usize),
}

/// The stable memory of a canister.
pub struct StableMemory {
    bytes: Vec<u8>,
}

/// `count` zero bytes.
pub open spec fn spec_zeros(count: nat) -> Seq<u8> {
    Seq::new(count, |i: int| 0u8)
}

/// `bytes` followed by as many zeros as fill its last page.
pub open spec fn spec_whole_pages(bytes: Seq<u8>) -> Seq<u8> {
    bytes + spec_zeros(((65536 - bytes.len() % 65536) % 65536) as nat)
}

impl StableMemory {
    /// What stable memory holds.
    pub closed spec fn bytes(&self) -> Seq<u8> {
        self.bytes@
    }

    /// Stable memory is made of whole pages.
    pub open spec fn is_whole_pages(&self) -> bool {
        self.bytes().len() % 65536 == 0
    }

    /// The size of stable memory in pages.
    pub open spec fn pages(&self) -> nat {
        self.bytes().len() / 65536
    }

    /// Stable memory of no pages.
    pub fn new() -> (r: Self)
        ensures
            r.bytes() == Seq::<u8>::empty(),
            r.is_whole_pages(),
    {
        StableMemory { bytes: Vec::new() }
    }

    /// Stable memory that holds `bytes`, with its last page filled up with zeros.
    pub fn from_bytes(bytes: Vec<u8>) -> (r: Option<Self>)
        ensures
            spec_whole_pages(bytes@).len() <= usize::MAX ==> r is Some && r->Some_0.bytes()
                == spec_whole_pages(bytes@),
            spec_whole_pages(bytes@).len() > usize::MAX ==> r is None,
            r is Some ==> r->Some_0.is_whole_pages(),
    {
        let mut bytes = bytes;
        let len: usize = bytes.len();
        let missing: usize = (WASM_PAGE_SIZE_IN_BYTES - len % WASM_PAGE_SIZE_IN_BYTES)
            % WASM_PAGE_SIZE_IN_BYTES;
        if missing > usize::MAX - len {
            return None;
        }
        let ghost given = bytes@;
        let mut i: usize = 0;
        while i < missing
            invariant
                i <= missing,
                len + missing <= usize::MAX,
                given.len() == len,
                bytes@ == given + spec_zeros(i as nat),
            decreases missing - i,
        {
            bytes.push(0u8);
            i = i + 1;
            assert(bytes@ =~= given + spec_zeros(i as nat));
        }
        Some(StableMemory { bytes })
    }

    /// Put `bytes` in the place of what stable memory holds, with the last page filled up
    /// with zeros.
    pub fn store(&mut self, bytes: Vec<u8>)
        requires
            spec_whole_pages(bytes@).len() <= usize::MAX,
        ensures
            final(self).bytes() == spec_whole_pages(bytes@),
            final(self).is_whole_pages(),
    {
        match Self::from_bytes(bytes) {
            Some(memory) => {
                *self = memory;
            },
            None => {},
        }
    }

    /// Whether a region of `len` bytes can be filled up to whole pages on this machine.
    pub fn fits_whole_pages(len: usize) -> (r: bool)
        ensures
            r == (len + (65536 - len % 65536) % 65536 <= usize::MAX),
    {
        let missing: usize = (WASM_PAGE_SIZE_IN_BYTES - len % WASM_PAGE_SIZE_IN_BYTES)
            % WASM_PAGE_SIZE_IN_BYTES;
        missing <= usize::MAX - len
    }

    /// What stable memory holds.
    pub fn as_slice(&self) -> (s: &[u8])
        ensures
            s@ == self.bytes(),
    {
        self.bytes.as_slice()
    }

    /// Take the bytes out, leaving no pages behind.
    pub fn take(&mut self) -> (bytes: Vec<u8>)
        ensures
            bytes@ == old(self).bytes(),
            final(self).bytes() == Seq::<u8>::empty(),
    {
        let mut bytes: Vec<u8> = Vec::new();
        core::mem::swap(&mut bytes, &mut self.bytes);
        bytes
    }

    /// The size of stable memory in pages.
    pub fn stable64_size(&self) -> (pages: u64)
        ensures
            pages == self.pages(),
    {
        (self.bytes.len() / WASM_PAGE_SIZE_IN_BYTES) as u64
    }

    /// Grow stable memory by `new_pages` pages of zeros and return the size it had before, in
    /// pages. Where the new size cannot be addressed, nothing changes.
    pub fn stable64_grow(&mut self, new_pages: u64) -> (r: Result<u64, StableMemoryError>)
        ensures
            old(self).bytes().len() + new_pages * 65536 <= usize::MAX ==> r == Ok::<
                u64,
                StableMemoryError,
            >(old(self).pages() as u64) && final(self).bytes() == old(self).bytes() + spec_zeros(
                (new_pages * 65536) as nat,
            ),
            old(self).bytes().len() + new_pages * 65536 > usize::MAX ==> r == Err::<
                u64,
                StableMemoryError,
            >(StableMemoryError::OutOfMemory) && final(self).bytes() == old(self).bytes(),
            old(self).is_whole_pages() ==> final(self).is_whole_pages(),
    {
        let len: usize = self.bytes.len();
        let room: usize = (usize::MAX - len) / WASM_PAGE_SIZE_IN_BYTES;
        if new_pages > room as u64 {
            return Err(StableMemoryError::OutOfMemory);
        }
        let added: usize = (new_pages as usize) * WASM_PAGE_SIZE_IN_BYTES;
        let previous: u64 = (len / WASM_PAGE_SIZE_IN_BYTES) as u64;
        let mut i: usize = 0;
        while i < added
            invariant
                i <= added,
                len + added <= usize::MAX,
                old(self).bytes@.len() == len,
                self.bytes@ == old(self).bytes@ + spec_zeros(i as nat),
            decreases added - i,
        {
            self.bytes.push(0u8);
            i = i + 1;
            assert(self.bytes@ =~= old(self).bytes@ + spec_zeros(i as nat));
        }
        Ok(previous)
    }

    /// Read `len` bytes at `offset`. A window that leaves stable memory is refused.
    pub fn stable64_read(&self, offset: u64, len: usize) -> (r: Result<Vec<u8>, StableMemoryError>)
        ensures
            offset + len <= self.bytes().len() ==> r is Ok && r->Ok_0@ == self.bytes().subrange(
                offset as int,
                offset + len,
            ),
            offset + len > self.bytes().len() ==> r == Err::<Vec<u8>, StableMemoryError>(
                StableMemoryError::OutOfBounds,
            ),
    {
        let size: usize = self.bytes.len();
        if offset > size as u64 || len > size - offset as usize {
            return Err(StableMemoryError::OutOfBounds);
        }
        let start: usize = offset as usize;
        let mut out: Vec<u8> = Vec::with_capacity(len);
        let mut i: usize = 0;
        while i < len
            invariant
                i <= len,
                start + len <= size,
                size == self.bytes@.len(),
                out@ == self.bytes@.subrange(start as int, start + i),
            decreases len - i,
        {
            out.push(self.bytes[start + i]);
            i = i + 1;
            assert(out@ =~= self.bytes@.subrange(start as int, start + i));
        }
        Ok(out)
    }

    /// Write `data` at `offset`. A window that leaves stable memory is refused, and nothing
    /// is written.
    pub fn stable64_write(&mut self, offset: u64, data: &[u8]) -> (r: Result<
        (),
        StableMemoryError,
    >)
        ensures
            r == spec_write_outcome(old(self).bytes(), offset, data@),
            final(self).bytes() == spec_written(old(self).bytes(), offset, data@),
            final(self).bytes().len() == old(self).bytes().len(),
    {
        let size: usize = self.bytes.len();
        let len: usize = data.len();
        if offset > size as u64 || len > size - offset as usize {
            return Err(StableMemoryError::OutOfBounds);
        }
        let start: usize = offset as usize;
        let mut i: usize = 0;
        while i < len
            invariant
                i <= len,
                len == data@.len(),
                start + len <= size,
                size == self.bytes@.len(),
                size == old(self).bytes@.len(),
                forall|j: int| start <= j < start + i ==> self.bytes@[j] == data@[j - start],
                forall|j: int|
                    0 <= j < size && !(start <= j < start + i) ==> self.bytes@[j] == old(self).bytes@[j],
            decreases len - i,
        {
            self.bytes.set(start + i, data[i]);
            i = i + 1;
        }
        assert(self.bytes@ =~= write_at(old(self).bytes@, start as int, data@));
        Ok(())
    }
}

/// Whether a write of `data` at `offset` into `memory` is accepted.
pub open spec fn spec_write_outcome(memory: Seq<u8>, offset: u64, data: Seq<u8>) -> Result<
    (),
    StableMemoryError,
> {
    if offset + data.len() <= memory.len() {
        Ok(())
    } else {
        Err(StableMemoryError::OutOfBounds)
    }
}

/// What `memory` holds after a write of `data` at `offset` has been asked for.
pub open spec fn spec_written(memory: Seq<u8>, offset: u64, data: Seq<u8>) -> Seq<u8> {
    if offset + data.len() <= memory.len() {
        write_at(memory, offset as int, data)
    } else {
        memory
    }
}

/// The header and the transient state that the last save or restore left behind.
#[derive(Debug, Clone, Copy)]
pub struct StableStorage {
    /// The header that was last written or read.
    pub header: Header,
    /// The transient state of the current process lifetime.
    pub transient: Transient,
}

impl Default for StableStorage {
    fn default() -> (r: Self)
        ensures
            r.header == (Header {
                header_length: 0,
                content_length: 0,
                content_format: crate::data_format::DataFormatType::Unknown,
                content_schema_version: 0,
                pre_upgrade_instruction_count: 0,
            }),
            r.transient == (Transient { skip_next_save: false, post_upgrade_instruction_count: 0 }),
    {
        StableStorage { header: Header::default(), transient: Transient::default() }
    }
}

/// Return the stable storage header and transient structures
pub fn stable_storage_info(storage: &StableStorage) -> (r: (Header, Transient))
    ensures
        r.0 == storage.header,
        r.1 == storage.transient,
{
    (storage.header, storage.transient)
}

/// Perform a backup of stable storage at the given offset and limit
pub fn backup_stable_storage(memory: &StableMemory, offset: u64, limit: usize) -> (r: Result<
    Vec<u8>,
    StableMemoryError,
>)
    ensures
        offset + limit <= memory.bytes().len() ==> r is Ok && r->Ok_0@ == memory.bytes().subrange(
            offset as int,
            offset + limit,
        ),
        offset + limit > memory.bytes().len() ==> r == Err::<Vec<u8>, StableMemoryError>(
            StableMemoryError::OutOfBounds,
        ),
{
    memory.stable64_read(offset, limit)
}

/// The length of the region that begins stable memory of `size` bytes, as the header at its
/// start declares it: header and content. Where no header decodes, or the header declares
/// more than the memory holds, the region is the whole memory.
pub open spec fn spec_declared_region_len(prefix: Seq<u8>, size: u64) -> u64 {
    match crate::header::spec_decode(prefix) {
        Ok(header) => if header.spec_num_content_and_header_bytes() <= size {
            header.spec_num_content_and_header_bytes() as u64
        } else {
            size
        },
        Err(_) => size,
    }
}

/// The length of the region that begins stable memory of `size` bytes, from the bytes
/// `prefix` at its start.
pub fn declared_region_len(prefix: &[u8], size: u64) -> (r: u64)
    ensures
        r == spec_declared_region_len(prefix@, size),
        r <= size,
{
    let mut reader = crate::movable_io::MovableReader::new(prefix);
    match Header::new_from_reader(&mut reader) {
        Ok(header) => match header.checked_num_content_and_header_bytes() {
            Some(len) => if len <= size {
                len
            } else {
                size
            },
            None => size,
        },
        Err(_) => size,
    }
}

/// The number of pages that a region of `len` bytes is given.
pub open spec fn spec_pages_for(len: u64) -> nat {
    (len / 65536 + 1) as nat
}

/// The number of pages by which stable memory of `current` pages grows to hold a region of
/// `len` bytes: the pages that the region is given, where the memory has fewer, and none
/// otherwise.
pub fn pages_to_grow(len: u64, current: u64) -> (r: Option<u64>)
    ensures
        spec_pages_for(len) > current ==> r == Some(spec_pages_for(len) as u64),
        spec_pages_for(len) <= current ==> r is None,
{
    let page_count: u64 = len / (WASM_PAGE_SIZE_IN_BYTES as u64) + 1;
    if page_count > current {
        Some(page_count)
    } else {
        None
    }
}

/// Initialize the stable storage with the given length
///
/// Stable memory that has fewer pages than a region of `len` bytes is given grows by that
/// many pages; otherwise nothing changes.
pub fn init_stable_storage(memory: &mut StableMemory, len: u64) -> (r: Result<
    (),
    StableMemoryError,
>)
    requires
        old(memory).is_whole_pages(),
    ensures
        final(memory).is_whole_pages(),
        spec_pages_for(len) <= old(memory).pages() ==> r is Ok && final(memory).bytes() == old(memory).bytes(),
        spec_pages_for(len) > old(memory).pages() && old(memory).bytes().len() + spec_pages_for(
            len,
        ) * 65536 <= usize::MAX ==> r is Ok && final(memory).bytes() == old(memory).bytes()
            + spec_zeros(spec_pages_for(len) * 65536),
        spec_pages_for(len) > old(memory).pages() && old(memory).bytes().len() + spec_pages_for(
            len,
        ) * 65536 > usize::MAX ==> r == Err::<(), StableMemoryError>(
            StableMemoryError::OutOfMemory,
        ) && final(memory).bytes() == old(memory).bytes(),
        r is Ok ==> final(memory).bytes().len() > len,
{
    let current: u64 = memory.stable64_size();
    match pages_to_grow(len, current) {
        Some(page_count) => match memory.stable64_grow(page_count) {
            Ok(_) => Ok(()),
            Err(e) => Err(e),
        },
        None => Ok(()),
    }
}

/// Restore the stable storage
pub fn restore_stable_storage(memory: &mut StableMemory, offset: u64, bytes: Vec<u8>) -> (r:
    Result<(), StableMemoryError>)
    ensures
        r == spec_write_outcome(old(memory).bytes(), offset, bytes@),
        final(memory).bytes() == spec_written(old(memory).bytes(), offset, bytes@),
{
    memory.stable64_write(offset, bytes.as_slice())
}

/// What gzip decoding of `compressed` gives: the decoded bytes, or nothing where it is no
/// gzip stream.
pub uninterp spec fn gzip_decoded(compressed: Seq<u8>) -> Option<Seq<u8>>;

/// Decode a gzip stream.
///
/// Calls `read_to_end` on a `flate2::read::GzDecoder` over `compressed`. The decoder is a
/// function of the compressed bytes alone; its result is named `gzip_decoded`, and an error
/// of the decoder is handed on as `None`.
#[verifier::external_body]
fn gunzip(compressed: &[u8]) -> (r: Option<Vec<u8>>)
    ensures
        gzip_decoded(compressed@) == match r {
            Some(decoded) => Some(decoded@),
            None => None,
        },
{
    let mut decoded: Vec<u8> = Vec::new();
    match std::io::Read::read_to_end(&mut flate2::read::GzDecoder::new(compressed), &mut decoded) {
        Ok(_) => Some(decoded),
        Err(_) => None,
    }
}

/// Whether every window is a gzip stream.
pub open spec fn spec_all_decodable(windows: Seq<Vec<u8>>) -> bool {
    forall|i: int| 0 <= i < windows.len() ==> gzip_decoded(#[trigger] windows[i]@) is Some
}

/// Whether the window at `index` is the first that is no gzip stream.
pub open spec fn spec_is_first_undecodable(windows: Seq<Vec<u8>>, index: int) -> bool {
    &&& 0 <= index < windows.len()
    &&& gzip_decoded(windows[index]@) is None
    &&& forall|j: int| 0 <= j < index ==> gzip_decoded(#[trigger] windows[j]@) is Some
}

/// The decoded windows, one after the other.
pub open spec fn spec_decoded_concat(windows: Seq<Vec<u8>>) -> Seq<u8>
    decreases windows.len(),
{
    if windows.len() == 0 {
        Seq::empty()
    } else {
        spec_decoded_concat(windows.drop_last()) + match gzip_decoded(windows.last()@) {
            Some(decoded) => decoded,
            None => Seq::empty(),
        }
    }
}

/// The given windows, one after the other.
pub open spec fn spec_concat(windows: Seq<Vec<u8>>) -> Seq<u8>
    decreases windows.len(),
{
    if windows.len() == 0 {
        Seq::empty()
    } else {
        spec_concat(windows.drop_last()) + windows.last()@
    }
}

/// Two writes, the second right behind the first, are one write of both.
pub proof fn lemma_write_at_append(memory: Seq<u8>, offset: int, first: Seq<u8>, second: Seq<u8>)
    requires
        0 <= offset,
    ensures
        write_at(write_at(memory, offset, first), offset + first.len(), second) == write_at(
            memory,
            offset,
            first + second,
        ),
{
    assert(write_at(write_at(memory, offset, first), offset + first.len(), second) =~= write_at(
        memory,
        offset,
        first + second,
    ));
}

/// Decode every window, or report the first that is no gzip stream.
pub fn decode_windows(windows: &Vec<Vec<u8>>) -> (r: Result<Vec<Vec<u8>>, StableMemoryError>)
    ensures
        spec_all_decodable(windows@) ==> r is Ok,
        r is Ok ==> spec_all_decodable(windows@) && r->Ok_0@.len() == windows@.len()
            && spec_concat(r->Ok_0@) == spec_decoded_concat(windows@),
        r is Err ==> r->Err_0 is InvalidCompressedData && spec_is_first_undecodable(
            windows@,
            r->Err_0->InvalidCompressedData_0 as int,
        ),
{
    let mut decoded: Vec<Vec<u8>> = Vec::new();
    let mut i: usize = 0;
    while i < windows.len()
        invariant
            i <= windows@.len(),
            decoded@.len() == i,
            forall|j: int| 0 <= j < i ==> gzip_decoded(#[trigger] windows@[j]@) is Some,
            spec_concat(decoded@) == spec_decoded_concat(windows@.take(i as int)),
        decreases windows@.len() - i,
    {
        match gunzip(windows[i].as_slice()) {
            Some(bytes) => {
                proof {
                    let next = windows@.take(i + 1);
                    assert(next.drop_last() =~= windows@.take(i as int));
                    assert(next.last() == windows@[i as int]);
                    assert(decoded@.push(bytes).drop_last() =~= decoded@);
                }
                decoded.push(bytes);
            },
            None => {
                return Err(StableMemoryError::InvalidCompressedData(i));
            },
        }
        i = i + 1;
    }
    assert(windows@.take(i as int) =~= windows@);
    Ok(decoded)
}

/// Write the windows one after the other, the first at `offset`. Windows that together leave
/// stable memory are refused, and nothing is written.
pub fn write_windows(memory: &mut StableMemory, offset: u64, windows: &Vec<Vec<u8>>) -> (r:
    Result<(), StableMemoryError>)
    ensures
        r == spec_write_outcome(old(memory).bytes(), offset, spec_concat(windows@)),
        final(memory).bytes() == spec_written(old(memory).bytes(), offset, spec_concat(windows@)),
{
    let size: usize = memory.as_slice().len();
    if offset > size as u64 {
        return Err(StableMemoryError::OutOfBounds);
    }
    let room: usize = size - offset as usize;
    let mut total: usize = 0;
    let mut i: usize = 0;
    while i < windows.len()
        invariant
            i <= windows@.len(),
            size == old(memory).bytes().len(),
            memory.bytes() == old(memory).bytes(),
            offset <= size,
            room == size - offset,
            total <= room,
            total == spec_concat(windows@.take(i as int)).len(),
        decreases windows@.len() - i,
    {
        let len: usize = windows[i].len();
        proof {
            let next = windows@.take(i + 1);
            assert(next.drop_last() =~= windows@.take(i as int));
            assert(next.last() == windows@[i as int]);
            lemma_concat_grows(windows@, i + 1);
        }
        if len > room - total {
            return Err(StableMemoryError::OutOfBounds);
        }
        total = total + len;
        i = i + 1;
    }
    assert(windows@.take(i as int) =~= windows@);
    let mut position: u64 = offset;
    let mut k: usize = 0;
    while k < windows.len()
        invariant
            k <= windows@.len(),
            size == old(memory).bytes().len(),
            offset + spec_concat(windows@).len() <= size,
            position == offset + spec_concat(windows@.take(k as int)).len(),
            memory.bytes() == write_at(
                old(memory).bytes(),
                offset as int,
                spec_concat(windows@.take(k as int)),
            ),
        decreases windows@.len() - k,
    {
        proof {
            let next = windows@.take(k + 1);
            assert(next.drop_last() =~= windows@.take(k as int));
            assert(next.last() == windows@[k as int]);
            lemma_concat_grows(windows@, k + 1);
            lemma_write_at_append(
                old(memory).bytes(),
                offset as int,
                spec_concat(windows@.take(k as int)),
                windows@[k as int]@,
            );
        }
        let _ = memory.stable64_write(position, windows[k].as_slice());
        position = position + windows[k].len() as u64;
        k = k + 1;
    }
    assert(windows@.take(k as int) =~= windows@);
    Ok(())
}

/// A prefix of the windows is no longer than all of them.
pub proof fn lemma_concat_grows(windows: Seq<Vec<u8>>, count: int)
    requires
        0 <= count <= windows.len(),
    ensures
        spec_concat(windows.take(count)).len() <= spec_concat(windows).len(),
    decreases windows.len() - count,
{
    if count < windows.len() {
        let next = windows.take(count + 1);
        assert(next.drop_last() =~= windows.take(count));
        lemma_concat_grows(windows, count + 1);
    } else {
        assert(windows.take(count) =~= windows);
    }
}

/// Restore the stable storage from a compressed array of byte buffers
///
/// Each window is decoded by itself and the decoded windows are written one after the
/// other, the first at `offset`. Nothing is written unless every window decodes and all of
/// them fit.
pub fn restore_stable_storage_compressed(
    memory: &mut StableMemory,
    offset: u64,
    compressed_bytes_vec: Vec<Vec<u8>>,
) -> (r: Result<(), StableMemoryError>)
    ensures
        spec_all_decodable(compressed_bytes_vec@) ==> r == spec_write_outcome(
            old(memory).bytes(),
            offset,
            spec_decoded_concat(compressed_bytes_vec@),
        ) && final(memory).bytes() == spec_written(
            old(memory).bytes(),
            offset,
            spec_decoded_concat(compressed_bytes_vec@),
        ),
        !spec_all_decodable(compressed_bytes_vec@) ==> r is Err && r->Err_0
            is InvalidCompressedData && spec_is_first_undecodable(
            compressed_bytes_vec@,
            r->Err_0->InvalidCompressedData_0 as int,
        ) && final(memory).bytes() == old(memory).bytes(),
{
    match decode_windows(&compressed_bytes_vec) {
        Ok(decoded) => write_windows(memory, offset, &decoded),
        Err(e) => Err(e),
    }
}

/// Set the flag that skips saving the stable storage on next upgrade
pub fn set_restore_from_stable_storage(storage: &mut StableStorage, flag: bool)
    ensures
        final(storage).transient.skip_next_save == flag,
        final(storage).transient.post_upgrade_instruction_count == old(storage).transient.post_upgrade_instruction_count,
        final(storage).header == old(storage).header,
{
    storage.transient.skip_next_save = flag;
}

/// Restoring the same window a second time leaves stable memory as the first time left it.
pub proof fn lemma_restore_is_idempotent(memory: Seq<u8>, offset: u64, bytes: Seq<u8>)
    ensures
        spec_written(spec_written(memory, offset, bytes), offset, bytes) == spec_written(
            memory,
            offset,
            bytes,
        ),
        spec_write_outcome(spec_written(memory, offset, bytes), offset, bytes)
            == spec_write_outcome(memory, offset, bytes),
{
    if offset + bytes.len() <= memory.len() {
        crate::movable_io::lemma_write_at_idempotent(memory, offset as int, bytes);
        crate::movable_io::lemma_write_at_inside(memory, offset as int, bytes);
    }
}

} // verus!
