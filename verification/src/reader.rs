//! An in-memory byte source with a position, read and sought like a file.

use crate::error::{IoFailure, NcmError};
use vstd::prelude::*;
use vstd::slice::{slice_subrange, slice_to_vec};

verus! {

/// Bytes with a read position. The position may lie past the end: a read
/// there finds nothing.
pub struct ByteReader {
    pub data: Vec<u8>,
    pub pos: u64,
}

/// The `n` bytes of `bytes` from position `pos` on, where that many are
/// there. No bytes are there anywhere.
pub open spec fn take_at(bytes: Seq<u8>, pos: nat, n: nat) -> Option<Seq<u8>> {
    if pos + n <= bytes.len() {
        Some(bytes.subrange(pos as int, (pos + n) as int))
    } else if n == 0 {
        Some(Seq::empty())
    } else {
        None
    }
}

/// What is left of `bytes` from position `pos` on.
pub open spec fn rest_at(bytes: Seq<u8>, pos: nat) -> Seq<u8> {
    if pos <= bytes.len() {
        bytes.subrange(pos as int, bytes.len() as int)
    } else {
        Seq::empty()
    }
}

impl ByteReader {
    /// A reader at the start of `data`.
    pub fn new(data: Vec<u8>) -> (r: ByteReader)
        ensures
            r.data@ == data@,
            r.pos == 0,
    {
        ByteReader { data, pos: 0 }
    }

    /// The current position, counted from the start of the data.
    pub fn position(&self) -> (p: u64)
        ensures
            p == self.pos,
    {
        self.pos
    }

    /// Reads exactly `n` bytes and moves past them. Where fewer are left, it
    /// fails with `Io` and reads nothing. A read of no bytes never fails.
    pub fn read_exact(&mut self, n: usize) -> (res: Result<Vec<u8>, NcmError>)
        ensures
            final(self).data@ == old(self).data@,
            match res {
                Ok(bytes) => {
                    &&& take_at(old(self).data@, old(self).pos as nat, n as nat) == Some(bytes@)
                    &&& final(self).pos == old(self).pos + n
                },
                Err(e) => {
                    &&& take_at(old(self).data@, old(self).pos as nat, n as nat) is None
                    &&& e == NcmError::Io(IoFailure::UnexpectedEof)
                    &&& final(self).pos == old(self).pos
                },
            },
    {
        if n == 0 {
            return Ok(Vec::new());
        }
        let len: usize = self.data.len();
        if self.pos > len as u64 || n > len - self.pos as usize {
            return Err(NcmError::Io(IoFailure::UnexpectedEof));
        }
        let start: usize = self.pos as usize;
        let bytes = slice_to_vec(slice_subrange(self.data.as_slice(), start, start + n));
        self.pos = self.pos + n as u64;
        Ok(bytes)
    }

    /// Reads up to `max` bytes, all that are left where fewer are, and moves
    /// past them.
    pub fn read(&mut self, max: usize) -> (bytes: Vec<u8>)
        ensures
            final(self).data@ == old(self).data@,
            final(self).pos == old(self).pos + bytes@.len(),
            bytes@ == ({
                let rest = rest_at(old(self).data@, old(self).pos as nat);
                if max < rest.len() {
                    rest.take(max as int)
                } else {
                    rest
                }
            }),
    {
        let len: usize = self.data.len();
        if self.pos >= len as u64 {
            return Vec::new();
        }
        let start: usize = self.pos as usize;
        let n: usize = if max < len - start {
            max
        } else {
            len - start
        };
        let bytes = slice_to_vec(slice_subrange(self.data.as_slice(), start, start + n));
        assert(bytes@ =~= rest_at(self.data@, self.pos as nat).take(n as int));
        assert(n == len - start ==> bytes@ =~= rest_at(self.data@, self.pos as nat));
        self.pos = self.pos + n as u64;
        bytes
    }

    /// Moves the position by `delta`. Fails with `Io`, and stays, where the
    /// new position would be negative or past the 64-bit range.
    pub fn seek_by(&mut self, delta: i64) -> (res: Result<u64, NcmError>)
        ensures
            final(self).data@ == old(self).data@,
            match res {
                Ok(p) => {
                    &&& p == old(self).pos + delta
                    &&& final(self).pos == p
                },
                Err(e) => {
                    &&& !(0 <= old(self).pos + delta <= u64::MAX)
                    &&& e == NcmError::Io(IoFailure::InvalidSeek)
                    &&& final(self).pos == old(self).pos
                },
            },
    {
        if delta >= 0 {
            let forward: u64 = delta as u64;
            if forward > u64::MAX - self.pos {
                return Err(NcmError::Io(IoFailure::InvalidSeek));
            }
            self.pos = self.pos + forward;
        } else {
            let back: u64 = (-(delta + 1)) as u64 + 1;
            if back > self.pos {
                return Err(NcmError::Io(IoFailure::InvalidSeek));
            }
            self.pos = self.pos - back;
        }
        Ok(self.pos)
    }

    /// Moves the position to `pos`, counted from the start of the data.
    pub fn seek_to(&mut self, pos: u64)
        ensures
            final(self).data@ == old(self).data@,
            final(self).pos == pos,
    {
        self.pos = pos;
    }
}

} // verus!
