//! The byte cursor over a class file's raw bytes: a buffer plus a read
//! position, with fixed-width big-endian reads and bounds-checked slices.
//! Every read fails with `TruncatedInput` rather than under-reading, and the
//! position never passes the end of the buffer.

use vstd::prelude::*;

use crate::error::VmError;

verus! {

/// The value of the big-endian 16-bit field at offset `i` of `b`.
pub open spec fn spec_be16(b: Seq<u8>, i: int) -> int {
    b[i] * 0x100 + b[i + 1]
}

/// The value of the big-endian 32-bit field at offset `i` of `b`.
pub open spec fn spec_be32(b: Seq<u8>, i: int) -> int {
    b[i] * 0x100_0000 + b[i + 1] * 0x1_0000 + b[i + 2] * 0x100 + b[i + 3]
}

/// Relies on byteorder's `BigEndian::read_u16` (byteorder 1.5.0): it reads the
/// first two bytes of the buffer as one big-endian unsigned 16-bit integer.
#[verifier::external_body]
fn be_read_u16(hi: u8, lo: u8) -> (r: u16)
    ensures
        r == hi * 0x100 + lo,
{
    <byteorder::BigEndian as byteorder::ByteOrder>::read_u16(&[hi, lo])
}

/// Relies on byteorder's `BigEndian::read_u32` (byteorder 1.5.0): it reads the
/// first four bytes of the buffer as one big-endian unsigned 32-bit integer.
#[verifier::external_body]
fn be_read_u32(b0: u8, b1: u8, b2: u8, b3: u8) -> (r: u32)
    ensures
        r == b0 * 0x100_0000 + b1 * 0x1_0000 + b2 * 0x100 + b3,
{
    <byteorder::BigEndian as byteorder::ByteOrder>::read_u32(&[b0, b1, b2, b3])
}

/// A byte buffer with a read position. Multi-byte fields are always read
/// big-endian, the byte order the binary class format mandates.
pub struct ClassFileStream {
    pub buffer: Vec<u8>,
    pub current: usize,
}

impl ClassFileStream {
    /// The position never passes the end of the buffer.
    pub open spec fn wf(&self) -> bool {
        self.current <= self.buffer@.len()
    }

    pub fn new(buffer: Vec<u8>) -> (r: ClassFileStream)
        ensures
            r.wf(),
            r.buffer@ == buffer@,
            r.current == 0,
    {
        ClassFileStream { buffer, current: 0 }
    }

    /// How many bytes remain to be read.
    pub fn remaining(&self) -> (r: usize)
        requires
            self.wf(),
        ensures
            r == self.buffer@.len() - self.current,
    {
        self.buffer.len() - self.current
    }

    /// Whether the position has reached the end of the buffer.
    pub fn at_end(&self) -> (r: bool)
        requires
            self.wf(),
        ensures
            r == (self.current == self.buffer@.len()),
    {
        self.current == self.buffer.len()
    }

    /// Reads one byte and advances by one; fails with `TruncatedInput`, and
    /// moves nothing, when no byte remains.
    pub fn read_u1(&mut self) -> (r: Result<u8, VmError>)
        requires
            old(self).wf(),
        ensures
            final(self).wf(),
            final(self).buffer@ == old(self).buffer@,
            old(self).current + 1 <= old(self).buffer@.len() ==> {
                &&& r matches Ok(v) && v == old(self).buffer@[old(self).current as int]
                &&& final(self).current == old(self).current + 1
            },
            old(self).current + 1 > old(self).buffer@.len() ==> {
                &&& r matches Err(e) && e == VmError::TruncatedInput
                &&& final(self).current == old(self).current
            },
    {
        if self.current < self.buffer.len() {
            let v = self.buffer[self.current];
            self.current = self.current + 1;
            Ok(v)
        } else {
            Err(VmError::TruncatedInput)
        }
    }

    /// Reads one big-endian 16-bit field and advances by two; fails with
    /// `TruncatedInput`, and moves nothing, when fewer than two bytes remain.
    pub fn read_u2(&mut self) -> (r: Result<u16, VmError>)
        requires
            old(self).wf(),
        ensures
            final(self).wf(),
            final(self).buffer@ == old(self).buffer@,
            old(self).current + 2 <= old(self).buffer@.len() ==> {
                &&& r matches Ok(v) && v == spec_be16(old(self).buffer@, old(self).current as int)
                &&& final(self).current == old(self).current + 2
            },
            old(self).current + 2 > old(self).buffer@.len() ==> {
                &&& r matches Err(e) && e == VmError::TruncatedInput
                &&& final(self).current == old(self).current
            },
    {
        if 2 <= self.buffer.len() - self.current {
            let hi = self.buffer[self.current];
            let lo = self.buffer[self.current + 1];
            self.current = self.current + 2;
            Ok(be_read_u16(hi, lo))
        } else {
            Err(VmError::TruncatedInput)
        }
    }

    /// Reads one big-endian 32-bit field and advances by four; fails with
    /// `TruncatedInput`, and moves nothing, when fewer than four bytes remain.
    pub fn read_u4(&mut self) -> (r: Result<u32, VmError>)
        requires
            old(self).wf(),
        ensures
            final(self).wf(),
            final(self).buffer@ == old(self).buffer@,
            old(self).current + 4 <= old(self).buffer@.len() ==> {
                &&& r matches Ok(v) && v == spec_be32(old(self).buffer@, old(self).current as int)
                &&& final(self).current == old(self).current + 4
            },
            old(self).current + 4 > old(self).buffer@.len() ==> {
                &&& r matches Err(e) && e == VmError::TruncatedInput
                &&& final(self).current == old(self).current
            },
    {
        if 4 <= self.buffer.len() - self.current {
            let b0 = self.buffer[self.current];
            let b1 = self.buffer[self.current + 1];
            let b2 = self.buffer[self.current + 2];
            let b3 = self.buffer[self.current + 3];
            self.current = self.current + 4;
            Ok(be_read_u32(b0, b1, b2, b3))
        } else {
            Err(VmError::TruncatedInput)
        }
    }

    /// Reads exactly `n` bytes as a fresh buffer and advances by `n`; fails
    /// with `TruncatedInput`, and moves nothing, when fewer remain.
    pub fn read_bytes(&mut self, n: usize) -> (r: Result<Vec<u8>, VmError>)
        requires
            old(self).wf(),
        ensures
            final(self).wf(),
            final(self).buffer@ == old(self).buffer@,
            old(self).current + n <= old(self).buffer@.len() ==> {
                &&& r matches Ok(v) && v@ == old(self).buffer@.subrange(
                    old(self).current as int,
                    old(self).current + n,
                )
                &&& final(self).current == old(self).current + n
            },
            old(self).current + n > old(self).buffer@.len() ==> {
                &&& r matches Err(e) && e == VmError::TruncatedInput
                &&& final(self).current == old(self).current
            },
    {
        if n <= self.buffer.len() - self.current {
            let cap = self.buffer.len();
            let mut v: Vec<u8> = Vec::new();
            let mut i: usize = 0;
            while i < n
                invariant
                    self.wf(),
                    i <= n,
                    cap == self.buffer@.len(),
                    self.current + n <= cap,
                    v@ =~= self.buffer@.subrange(self.current as int, self.current + i),
                decreases n - i,
            {
                v.push(self.buffer[self.current + i]);
                i = i + 1;
                assert(v@ =~= self.buffer@.subrange(self.current as int, self.current + i));
            }
            let start = self.current;
            self.current = self.current + n;
            assert(v@ =~= self.buffer@.subrange(start as int, start + n));
            Ok(v)
        } else {
            Err(VmError::TruncatedInput)
        }
    }

    /// Skips exactly `n` bytes; fails with `TruncatedInput`, and moves
    /// nothing, when fewer remain.
    pub fn skip(&mut self, n: usize) -> (r: Result<(), VmError>)
        requires
            old(self).wf(),
        ensures
            final(self).wf(),
            final(self).buffer@ == old(self).buffer@,
            old(self).current + n <= old(self).buffer@.len() ==> {
                &&& r is Ok
                &&& final(self).current == old(self).current + n
            },
            old(self).current + n > old(self).buffer@.len() ==> {
                &&& r matches Err(e) && e == VmError::TruncatedInput
                &&& final(self).current == old(self).current
            },
    {
        if n <= self.buffer.len() - self.current {
            self.current = self.current + n;
            Ok(())
        } else {
            Err(VmError::TruncatedInput)
        }
    }
}

} // verus!
