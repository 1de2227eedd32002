//! Seekable in-memory readers and writers over a byte region.
//!
//! A region is a sequence of bytes addressed by absolute offset. Writing at an offset
//! overwrites what is there, extends the region where the data reaches past its end, and
//! fills any gap between the old end and the offset with zeros.

use vstd::prelude::*;
use vstd::string::StringExecFns;

verus! {

/// Why a read, a write or a seek on a region failed.
#[derive(Debug, Clone, Copy, PartialEq, Eq, Structural)]
pub enum IoError {
    /// Fewer bytes were left than were asked for.
    UnexpectedEof,
    /// The position, or the end of the data, cannot be addressed on this machine.
    OutOfRange,
}

/// The region that results from writing `data` into `region` at `offset`.
pub open spec fn write_at(region: Seq<u8>, offset: int, data: Seq<u8>) -> Seq<u8>
    recommends
        offset >= 0,
{
    Seq::new(
        if region.len() >= offset + data.len() {
            region.len()
        } else {
            (offset + data.len()) as nat
        },
        |i: int|
            if offset <= i < offset + data.len() {
                data[i - offset]
            } else if i < region.len() {
                region[i]
            } else {
                0u8
            },
    )
}

/// What is left of `bytes` from `position` on.
pub open spec fn unread_from(bytes: Seq<u8>, position: nat) -> Seq<u8> {
    if position <= bytes.len() {
        bytes.subrange(position as int, bytes.len() as int)
    } else {
        Seq::empty()
    }
}

/// Writing the same data at the same offset a second time changes nothing.
pub proof fn lemma_write_at_idempotent(region: Seq<u8>, offset: int, data: Seq<u8>)
    requires
        offset >= 0,
    ensures
        write_at(write_at(region, offset, data), offset, data) == write_at(region, offset, data),
{
    assert(write_at(write_at(region, offset, data), offset, data) =~= write_at(
        region,
        offset,
        data,
    ));
}

/// A write that stays inside the region keeps its length and touches only its own window.
pub proof fn lemma_write_at_inside(region: Seq<u8>, offset: int, data: Seq<u8>)
    requires
        0 <= offset,
        offset + data.len() <= region.len(),
    ensures
        write_at(region, offset, data).len() == region.len(),
        write_at(region, offset, data).subrange(offset, offset + data.len()) == data,
        forall|i: int|
            0 <= i < region.len() && !(offset <= i < offset + data.len()) ==> write_at(
                region,
                offset,
                data,
            )[i] == region[i],
{
    assert(write_at(region, offset, data).subrange(offset, offset + data.len()) =~= data);
}

/// A reader over a byte region that remembers its position.
pub struct MovableReader<'a> {
    bytes: &'a [u8],
    position: usize,
}

impl<'a> MovableReader<'a> {
    /// The whole region that is read from.
    pub closed spec fn bytes(&self) -> Seq<u8> {
        self.bytes@
    }

    /// The offset of the next byte to read.
    pub closed spec fn position(&self) -> nat {
        self.position as nat
    }

    /// The bytes that have not been read yet.
    pub open spec fn unread(&self) -> Seq<u8> {
        unread_from(self.bytes(), self.position())
    }

    /// Create a reader at the start of `reader`.
    pub fn new(reader: &'a [u8]) -> (r: Self)
        ensures
            r.bytes() == reader@,
            r.position() == 0,
            r.unread() == reader@,
    {
        assert(unread_from(reader@, 0) =~= reader@);
        MovableReader { bytes: reader, position: 0 }
    }

    /// The current position.
    pub fn stream_position(&self) -> (p: u64)
        ensures
            p == self.position(),
    {
        self.position as u64
    }

    /// Move to the absolute offset `position`, which may lie past the end.
    pub fn seek(&mut self, position: u64) -> (r: Result<u64, IoError>)
        ensures
            final(self).bytes() == old(self).bytes(),
            position <= usize::MAX ==> r == Ok::<u64, IoError>(position) && final(self).position()
                == position,
            position > usize::MAX ==> r == Err::<u64, IoError>(IoError::OutOfRange) && final(self).position() == old(self).position(),
    {
        if position > usize::MAX as u64 {
            Err(IoError::OutOfRange)
        } else {
            self.position = position as usize;
            Ok(position)
        }
    }

    /// The unread part of the region.
    pub fn as_unread_slice(&self) -> (s: &'a [u8])
        ensures
            s@ == self.unread(),
    {
        let len: usize = self.bytes.len();
        if self.position <= len {
            vstd::slice::slice_subrange(self.bytes, self.position, len)
        } else {
            let s = vstd::slice::slice_subrange(self.bytes, len, len);
            assert(s@ =~= Seq::<u8>::empty());
            s
        }
    }

    /// Skip `count` unread bytes.
    pub fn consume(&mut self, count: usize)
        requires
            count <= old(self).unread().len(),
        ensures
            final(self).bytes() == old(self).bytes(),
            final(self).position() == old(self).position() + count,
            final(self).unread() == old(self).unread().skip(count as int),
    {
        let len: usize = self.bytes.len();
        assert(count <= len - self.position || count == 0);
        self.position = self.position + count;
        assert(self.unread() =~= old(self).unread().skip(count as int));
    }

    /// Read exactly `count` bytes. With fewer left, nothing is read.
    pub fn read_exact(&mut self, count: usize) -> (r: Result<Vec<u8>, IoError>)
        ensures
            final(self).bytes() == old(self).bytes(),
            count <= old(self).unread().len() ==> r is Ok && r->Ok_0@ == old(self).unread().take(
                count as int,
            ) && final(self).position() == old(self).position() + count,
            count > old(self).unread().len() ==> r == Err::<Vec<u8>, IoError>(
                IoError::UnexpectedEof,
            ) && final(self).position() == old(self).position(),
    {
        let len: usize = self.bytes.len();
        let left: usize = if self.position <= len {
            len - self.position
        } else {
            0
        };
        if count > left {
            return Err(IoError::UnexpectedEof);
        }
        let start: usize = self.position;
        let mut out: Vec<u8> = Vec::with_capacity(count);
        let mut i: usize = 0;
        while i < count
            invariant
                i <= count,
                count == 0 || start + count <= len,
                len == self.bytes@.len(),
                i == 0 ==> out@.len() == 0,
                i > 0 ==> out@ == self.bytes@.subrange(start as int, start + i),
            decreases count - i,
        {
            out.push(self.bytes[start + i]);
            i = i + 1;
            assert(out@ =~= self.bytes@.subrange(start as int, start + i));
        }
        self.position = start + count;
        assert(out@ =~= old(self).unread().take(count as int));
        assert(self.bytes@ == old(self).bytes@);
        Ok(out)
    }
}

/// A writer over a byte region that remembers its position.
pub struct MovableWriter {
    bytes: Vec<u8>,
    position: usize,
}

impl MovableWriter {
    /// The region as written so far.
    pub closed spec fn bytes(&self) -> Seq<u8> {
        self.bytes@
    }

    /// The offset at which the next write lands.
    pub closed spec fn position(&self) -> nat {
        self.position as nat
    }

    /// Create a writer at the start of the region `writer`.
    pub fn new(writer: Vec<u8>) -> (r: Self)
        ensures
            r.bytes() == writer@,
            r.position() == 0,
    {
        MovableWriter { bytes: writer, position: 0 }
    }

    /// The current position.
    pub fn stream_position(&self) -> (p: u64)
        ensures
            p == self.position(),
    {
        self.position as u64
    }

    /// Move to the absolute offset `position`, which may lie past the end.
    pub fn seek(&mut self, position: u64) -> (r: Result<u64, IoError>)
        ensures
            final(self).bytes() == old(self).bytes(),
            position <= usize::MAX ==> r == Ok::<u64, IoError>(position) && final(self).position()
                == position,
            position > usize::MAX ==> r == Err::<u64, IoError>(IoError::OutOfRange) && final(self).position() == old(self).position(),
    {
        if position > usize::MAX as u64 {
            Err(IoError::OutOfRange)
        } else {
            self.position = position as usize;
            Ok(position)
        }
    }

    /// Write all of `data` at the current position and move past it.
    pub fn write_all(&mut self, data: &[u8]) -> (r: Result<(), IoError>)
        ensures
            old(self).position() + data@.len() <= usize::MAX ==> r is Ok && final(self).bytes()
                == write_at(old(self).bytes(), old(self).position() as int, data@) && final(self).position() == old(self).position() + data@.len(),
            old(self).position() + data@.len() > usize::MAX ==> r == Err::<(), IoError>(
                IoError::OutOfRange,
            ) && final(self).bytes() == old(self).bytes() && final(self).position() == old(self).position(),
    {
        let count: usize = data.len();
        let start: usize = self.position;
        if count > usize::MAX - start {
            return Err(IoError::OutOfRange);
        }
        while self.bytes.len() < start
            invariant
                self.position == start,
                old(self).bytes@.len() <= self.bytes@.len(),
                self.bytes@.len() <= start || self.bytes@ == old(self).bytes@,
                forall|j: int| 0 <= j < old(self).bytes@.len() ==> self.bytes@[j] == old(self).bytes@[j],
                forall|j: int| old(self).bytes@.len() <= j < self.bytes@.len() ==> self.bytes@[j] == 0u8,
            decreases start - self.bytes@.len(),
        {
            self.bytes.push(0u8);
        }
        let ghost before = old(self).bytes@;
        let ghost padded = self.bytes@;
        let mut i: usize = 0;
        while i < count
            invariant
                i <= count,
                count == data@.len(),
                start + count <= usize::MAX,
                self.position == start,
                start <= padded.len(),
                padded.len() == if before.len() >= start { before.len() } else { start as nat },
                forall|j: int| 0 <= j < before.len() ==> padded[j] == before[j],
                forall|j: int| before.len() <= j < padded.len() ==> padded[j] == 0u8,
                self.bytes@.len() == if padded.len() >= start + i { padded.len() } else { (start + i) as nat },
                forall|j: int| start <= j < start + i ==> self.bytes@[j] == data@[j - start],
                forall|j: int| 0 <= j < padded.len() && !(start <= j < start + i) ==> self.bytes@[j] == padded[j],
            decreases count - i,
        {
            if start + i < self.bytes.len() {
                self.bytes.set(start + i, data[i]);
            } else {
                self.bytes.push(data[i]);
            }
            i = i + 1;
        }
        self.position = start + count;
        proof {
            let target = write_at(before, start as int, data@);
            assert(self.bytes@.len() == target.len());
            assert forall|j: int| 0 <= j < target.len() implies self.bytes@[j] == target[j] by {
                if start <= j < start + count {
                } else {
                    assert(j < padded.len());
                    assert(self.bytes@[j] == padded[j]);
                    if j < before.len() {
                        assert(padded[j] == before[j]);
                    } else {
                        assert(padded[j] == 0u8);
                    }
                }
            }
            assert(self.bytes@ =~= target);
        }
        Ok(())
    }

    /// The region as written so far.
    pub fn as_slice(&self) -> (s: &[u8])
        ensures
            s@ == self.bytes(),
    {
        self.bytes.as_slice()
    }

    /// Give the region back.
    pub fn into_inner(self) -> (bytes: Vec<u8>)
        ensures
            bytes@ == self.bytes(),
    {
        self.bytes
    }
}

impl IoError {
    /// The text of this error.
    pub fn to_string(&self) -> (text: String)
        ensures
            text@ == match *self {
                IoError::UnexpectedEof => "failed to fill whole buffer"@,
                IoError::OutOfRange => "invalid seek to a negative or overflowing position"@,
            },
    {
        match self {
            IoError::UnexpectedEof => String::from_str("failed to fill whole buffer"),
            IoError::OutOfRange => String::from_str(
                "invalid seek to a negative or overflowing position",
            ),
        }
    }
}

} // verus!
