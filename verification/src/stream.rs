//! The backing stream: what a window needs from the resource it looks into, and the
//! mathematical model in which that is stated.
//!
//! A stream is modelled by the sequence of bytes it holds and by the absolute offset of its
//! one physical cursor.

use vstd::prelude::*;

verus! {

/// How many bytes a stream that holds `bytes` can still hand out when its cursor stands at
/// `at`.
pub open spec fn readable(bytes: Seq<u8>, at: int) -> int {
    if 0 <= at <= bytes.len() {
        bytes.len() - at
    } else {
        0
    }
}

/// A buffer after `count` bytes were read into it from offset `at` of `bytes`: the bytes read
/// come first, the rest of the buffer is as it was.
pub open spec fn filled(buffer: Seq<u8>, bytes: Seq<u8>, at: int, count: int) -> Seq<u8> {
    Seq::new(
        buffer.len(),
        |i: int|
            if i < count {
                bytes[at + i]
            } else {
                buffer[i]
            },
    )
}

/// The content of a stream after `data` was written at offset `at` of `bytes`: `data` replaces
/// what stood there, the stream grows where `data` reaches past its end, and a gap between the
/// old end and `at` is filled with zeros. Writing nothing changes nothing.
pub open spec fn written(bytes: Seq<u8>, at: int, data: Seq<u8>) -> Seq<u8> {
    if data.len() == 0 {
        bytes
    } else {
        Seq::new(
            if bytes.len() >= at + data.len() { bytes.len() } else { (at + data.len()) as nat },
            |i: int|
                if at <= i < at + data.len() {
                    data[i - at]
                } else if i < bytes.len() {
                    bytes[i]
                } else {
                    0u8
                },
        )
    }
}

/// What was written at an offset is what a read at that offset hands back: after `data` was
/// written at `at`, the stream has at least `data.len()` bytes to read from `at` on, and the
/// first `count` bytes that a read from there puts into any buffer are the first `count`
/// bytes of `data`.
pub proof fn lemma_read_after_write(
    bytes: Seq<u8>,
    at: int,
    data: Seq<u8>,
    buffer: Seq<u8>,
    count: int,
)
    requires
        0 <= at,
        0 <= count <= data.len(),
        count <= buffer.len(),
    ensures
        readable(written(bytes, at, data), at) >= data.len(),
        filled(buffer, written(bytes, at, data), at, count).take(count) == data.take(count),
        filled(buffer, written(bytes, at, data), at, count).skip(count) == buffer.skip(count),
{
    let read = filled(buffer, written(bytes, at, data), at, count);
    assert(read.take(count) =~= data.take(count));
    assert(read.skip(count) =~= buffer.skip(count));
}

/// A write leaves every byte outside its range as it was.
pub proof fn lemma_write_is_local(bytes: Seq<u8>, at: int, data: Seq<u8>, i: int)
    requires
        0 <= at,
        0 <= i < bytes.len(),
        i < at || i >= at + data.len(),
    ensures
        i < written(bytes, at, data).len(),
        written(bytes, at, data)[i] == bytes[i],
{
}

/// A seekable byte stream that a window can look into.
///
/// Every operation may fail with the stream's own error. A failed operation leaves the
/// content untouched; where it leaves the cursor is the stream's affair. A read or a write
/// may move fewer bytes than it could. A stream type that does neither says so: see
/// [`BackingStream::dependable`].
///
/// A stream type that is verified says what `bytes` and `offset` are, and its operations are
/// proved to keep to the contracts below. The spec functions have bodies here for the sake of
/// a stream that is not verified (a file, a socket): it gives the six operations and need not
/// name a model. Nothing is proved from those bodies, and what is proved of a window holds of
/// such a stream as far as its operations behave as the contracts say.
pub trait BackingStream: Sized {
    /// What the stream reports when an operation fails.
    type Error;

    /// The bytes that the stream holds.
    open spec fn bytes(&self) -> Seq<u8> {
        Seq::empty()
    }

    /// The absolute offset of the physical cursor.
    open spec fn offset(&self) -> nat {
        0
    }

    /// Whether streams of this type never fail and never fall short: seeking, reporting and
    /// flushing succeed, a read hands out all that the buffer takes and the stream has, and a
    /// write takes all of the buffer, as long as it ends at an offset that fits a `usize`.
    /// A type that does not say promises none of this.
    open spec fn dependable() -> bool {
        false
    }

    /// Moves the physical cursor to the absolute offset `offset` and returns it.
    fn seek_to(&mut self, offset: u64) -> (result: Result<u64, Self::Error>)
        ensures
            final(self).bytes() == old(self).bytes(),
            result matches Ok(at) ==> at == offset && final(self).offset() == offset,
            Self::dependable() ==> result is Ok,
    ;

    /// Reports the absolute offset of the physical cursor.
    fn stream_position(&mut self) -> (result: Result<u64, Self::Error>)
        ensures
            final(self).bytes() == old(self).bytes(),
            result matches Ok(at) ==> at == old(self).offset() && final(self).offset()
                == old(self).offset(),
            Self::dependable() ==> result is Ok,
    ;

    /// Reports how many bytes the stream holds.
    fn stream_len(&mut self) -> (result: Result<u64, Self::Error>)
        ensures
            final(self).bytes() == old(self).bytes(),
            result matches Ok(len) ==> len == old(self).bytes().len() && final(self).offset()
                == old(self).offset(),
            Self::dependable() ==> result is Ok,
    ;

    /// Reads from the physical cursor on into `buf`, as far as the buffer and the stream
    /// reach at most, and moves the cursor past what was read.
    fn read(&mut self, buf: &mut [u8]) -> (result: Result<usize, Self::Error>)
        ensures
            final(self).bytes() == old(self).bytes(),
            final(buf)@.len() == old(buf)@.len(),
            result matches Ok(count) ==> {
                &&& count <= old(buf)@.len()
                &&& count <= readable(old(self).bytes(), old(self).offset() as int)
                &&& final(buf)@ == filled(
                    old(buf)@,
                    old(self).bytes(),
                    old(self).offset() as int,
                    count as int,
                )
                &&& final(self).offset() == old(self).offset() + count
            },
            Self::dependable() ==> result == Ok::<usize, Self::Error>(
                vstd::math::min(
                    old(buf)@.len() as int,
                    readable(old(self).bytes(), old(self).offset() as int),
                ) as usize,
            ),
    ;

    /// Writes a prefix of `buf` at the physical cursor and moves the cursor past it.
    fn write(&mut self, buf: &[u8]) -> (result: Result<usize, Self::Error>)
        ensures
            match result {
                Ok(count) => {
                    &&& count <= buf@.len()
                    &&& final(self).bytes() == written(
                        old(self).bytes(),
                        old(self).offset() as int,
                        buf@.take(count as int),
                    )
                    &&& final(self).offset() == old(self).offset() + count
                },
                Err(_) => final(self).bytes() == old(self).bytes(),
            },
            Self::dependable() && old(self).offset() + buf@.len() <= usize::MAX ==> result
                == Ok::<usize, Self::Error>(buf@.len() as usize),
    ;

    /// Hands on what the stream still buffers.
    fn flush(&mut self) -> (result: Result<(), Self::Error>)
        ensures
            final(self).bytes() == old(self).bytes(),
            result is Ok ==> final(self).offset() == old(self).offset(),
            Self::dependable() ==> result is Ok,
    ;
}

} // verus!
