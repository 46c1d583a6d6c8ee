//! A backing stream that lives in memory: a growable byte buffer with a cursor.

use crate::stream::BackingStream;
use vstd::prelude::*;

verus! {

/// The one failure of a [`MemoryStream`]: a write that would reach past the largest offset a
/// buffer in memory can have.
#[derive(Clone, Copy, Debug, PartialEq, Eq)]
pub struct OutOfRange;

/// A growable byte buffer with a cursor.
#[derive(Debug)]
pub struct MemoryStream {
    data: Vec<u8>,
    position: u64,
}

impl MemoryStream {
    /// A stream over `data`, with the cursor at offset 0.
    pub fn new(data: Vec<u8>) -> (stream: Self)
        ensures
            stream.bytes() == data@,
            stream.offset() == 0,
    {
        MemoryStream { data, position: 0 }
    }

    /// The absolute offset of the cursor.
    pub fn position(&self) -> (at: u64)
        ensures
            at == self.offset(),
    {
        self.position
    }

    /// Puts the cursor at the absolute offset `pos`.
    pub fn set_position(&mut self, pos: u64)
        ensures
            final(self).offset() == pos,
            final(self).bytes() == old(self).bytes(),
    {
        self.position = pos;
    }

    /// The buffer that the stream holds.
    pub fn get_ref(&self) -> (data: &Vec<u8>)
        ensures
            data@ == self.bytes(),
    {
        &self.data
    }

    /// Gives the buffer back.
    pub fn into_inner(self) -> (data: Vec<u8>)
        ensures
            data@ == self.bytes(),
    {
        self.data
    }
}

impl Clone for MemoryStream {
    /// A stream of its own with the same bytes and the cursor at the same offset.
    fn clone(&self) -> (copy: Self)
        ensures
            copy.bytes() == self.bytes(),
            copy.offset() == self.offset(),
    {
        MemoryStream { data: self.data.clone(), position: self.position }
    }
}

impl Default for MemoryStream {
    /// An empty stream, with the cursor at offset 0.
    fn default() -> (stream: Self)
        ensures
            stream.bytes() == Seq::<u8>::empty(),
            stream.offset() == 0,
    {
        MemoryStream { data: Vec::new(), position: 0 }
    }
}

impl BackingStream for MemoryStream {
    type Error = OutOfRange;

    closed spec fn bytes(&self) -> Seq<u8> {
        self.data@
    }

    closed spec fn offset(&self) -> nat {
        self.position as nat
    }

    /// A stream in memory never fails and never falls short where the machine can follow.
    open spec fn dependable() -> bool {
        true
    }

    fn seek_to(&mut self, offset: u64) -> (result: Result<u64, OutOfRange>) {
        self.position = offset;
        Ok(offset)
    }

    fn stream_position(&mut self) -> (result: Result<u64, OutOfRange>) {
        Ok(self.position)
    }

    fn stream_len(&mut self) -> (result: Result<u64, OutOfRange>) {
        Ok(self.data.len() as u64)
    }

    fn read(&mut self, buf: &mut [u8]) -> (result: Result<usize, OutOfRange>) {
        let len: usize = self.data.len();
        let rest: usize = if self.position <= len as u64 {
            len - self.position as usize
        } else {
            0
        };
        let count: usize = if buf.len() <= rest {
            buf.len()
        } else {
            rest
        };
        let at: usize = if count > 0 {
            self.position as usize
        } else {
            0
        };
        let ghost before = buf@;
        let mut i: usize = 0;
        while i < count
            invariant
                i <= count,
                count <= buf@.len(),
                buf@.len() == before.len(),
                self.data@.len() == len,
                at + count <= len,
                forall|j: int| 0 <= j < i ==> buf@[j] == self.data@[at + j],
                forall|j: int| i <= j < buf@.len() ==> buf@[j] == before[j],
            decreases count - i,
        {
            buf[i] = self.data[at + i];
            i += 1;
        }
        proof {
            assert(buf@ =~= crate::stream::filled(
                before,
                self.data@,
                self.position as int,
                count as int,
            ));
        }
        self.position = self.position + count as u64;
        Ok(count)
    }

    /// Fails exactly where the write would end past `usize::MAX`.
    fn write(&mut self, buf: &[u8]) -> (result: Result<usize, OutOfRange>)
        ensures
            result is Err <==> old(self).offset() + buf@.len() > usize::MAX,
    {
        let count: usize = buf.len();
        if self.position > (usize::MAX - count) as u64 {
            return Err(OutOfRange);
        }
        if count == 0 {
            return Ok(0);
        }
        let at: usize = self.position as usize;
        let ghost before = self.data@;
        while self.data.len() < at
            invariant
                self.position == old(self).position,
                self.data@.len() <= at || self.data@ == before,
                before.len() <= self.data@.len(),
                forall|j: int| 0 <= j < before.len() ==> self.data@[j] == before[j],
                forall|j: int| before.len() <= j < self.data@.len() ==> self.data@[j] == 0u8,
            decreases at - self.data@.len(),
        {
            self.data.push(0);
        }
        let ghost padded = self.data@;
        let mut i: usize = 0;
        while i < count
            invariant
                i <= count,
                count == buf@.len(),
                at + count <= usize::MAX,
                at <= padded.len(),
                self.position == at,
                before.len() <= padded.len(),
                padded.len() == before.len() || padded.len() == at,
                forall|j: int| 0 <= j < before.len() ==> padded[j] == before[j],
                forall|j: int| before.len() <= j < padded.len() ==> padded[j] == 0u8,
                self.data@.len() == if padded.len() >= at + i {
                    padded.len()
                } else {
                    (at + i) as nat
                },
                forall|j: int| at <= j < at + i ==> self.data@[j] == buf@[j - at],
                forall|j: int|
                    0 <= j < self.data@.len() && !(at <= j < at + i) ==> self.data@[j] == padded[j],
            decreases count - i,
        {
            if at + i < self.data.len() {
                self.data[at + i] = buf[i];
            } else {
                self.data.push(buf[i]);
            }
            i += 1;
        }
        proof {
            assert(buf@.take(count as int) =~= buf@);
            let after = crate::stream::written(before, at as int, buf@);
            assert(self.data@.len() == after.len());
            assert forall|j: int| 0 <= j < after.len() implies self.data@[j] == after[j] by {
                if !(at <= j < at + count) {
                    assert(self.data@[j] == padded[j]);
                }
            }
            assert(self.data@ =~= after);
        }
        self.position = self.position + count as u64;
        Ok(count)
    }

    fn flush(&mut self) -> (result: Result<(), OutOfRange>) {
        Ok(())
    }
}

} // verus!
