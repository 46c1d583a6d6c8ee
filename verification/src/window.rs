//! The window: a range `[start, end)` of absolute offsets of a backing stream, with a cursor
//! of its own, and the algebra that turns a seek request into a place inside that range.

use crate::stream::BackingStream;
use vstd::prelude::*;

verus! {

/// Where a seek counts from.
#[derive(Clone, Copy, Debug, PartialEq, Eq)]
pub enum SeekFrom {
    /// So many bytes after the window's start.
    Start(u64),
    /// So many bytes after the window's end, or before it where the number is negative.
    End(i64),
    /// So many bytes after the window's cursor, or before it where the number is negative.
    Current(i64),
}

/// The one way a seek fails: it asked for a place before the window's start.
#[derive(Clone, Copy, Debug, PartialEq, Eq)]
pub struct InvalidSeek;

impl InvalidSeek {
    /// The failure in words.
    pub fn message(&self) -> (text: &'static str)
        ensures
            text@ == "invalid seek to a negative offset"@,
    {
        "invalid seek to a negative offset"
    }
}

/// A range `[start, end)` of a backing stream and a cursor in it, all three as absolute
/// offsets, with the policy on the stream's own cursor.
#[derive(Clone, Copy, Debug, PartialEq, Eq)]
pub struct Window {
    /// The absolute offset of the first byte that the window shows.
    pub start: usize,
    /// The absolute offset just past the last byte that the window shows.
    pub end: usize,
    /// The absolute offset of the window's cursor.
    pub position: u64,
    /// Whether a transfer puts the stream's cursor back where it found it.
    pub preserve: bool,
}

/// The place `offset` bytes away from `base`: forwards it wraps at 2^64, backwards there is
/// none before 0.
pub open spec fn shifted(base: int, offset: int) -> Option<int> {
    if offset >= 0 {
        Some((base + offset) % 0x1_0000_0000_0000_0000)
    } else if base + offset >= 0 {
        Some(base + offset)
    } else {
        None
    }
}

/// A target brought back into a window of `length` bytes: one past the end wraps around, the
/// end itself stays.
pub open spec fn wrapped(target: int, length: int) -> int {
    if target > length {
        target % length
    } else {
        target
    }
}

impl Window {
    /// The cursor is not before the start, and in a window that shows anything it is not past
    /// the end.
    pub open spec fn wf(self) -> bool {
        &&& self.start <= self.position
        &&& self.start < self.end ==> self.position <= self.end
    }

    /// The number of bytes that the window shows.
    pub open spec fn length(self) -> int {
        self.end - self.start
    }

    /// The cursor as the window's user sees it: counted from the window's start.
    pub open spec fn relative(self) -> int {
        self.position - self.start
    }

    /// The number of bytes between the cursor and the window's end.
    pub open spec fn remaining(self) -> int {
        if self.position < self.end {
            self.end - self.position
        } else {
            0
        }
    }

    /// The same window with its cursor `relative` bytes after its start.
    pub open spec fn at(self, relative: int) -> Window {
        Window { position: (self.start + relative) as u64, ..self }
    }

    /// The same window with its cursor `count` bytes further on.
    pub open spec fn advanced(self, count: int) -> Window {
        Window { position: (self.position + count) as u64, ..self }
    }

    /// The relative position that a seek reports, or `None` where the seek is refused.
    ///
    /// A window that shows nothing reports 0 whatever is asked. Else a seek from the start
    /// lands at the offset modulo the length; one from the end or from the cursor shifts that
    /// base and wraps what lies past the end.
    pub open spec fn seek_position(self, style: SeekFrom) -> Option<int> {
        if self.length() == 0 {
            Some(0)
        } else {
            match style {
                SeekFrom::Start(offset) => Some(offset as int % self.length()),
                SeekFrom::End(offset) => match shifted(self.length(), offset as int) {
                    Some(target) => Some(wrapped(target, self.length())),
                    None => None,
                },
                SeekFrom::Current(offset) => match shifted(self.relative(), offset as int) {
                    Some(target) => Some(wrapped(target, self.length())),
                    None => None,
                },
            }
        }
    }

    /// The window after a seek: one that shows nothing stays as it is, and so does any window
    /// where the seek is refused; else the cursor stands where the seek reports.
    pub open spec fn after_seek(self, style: SeekFrom) -> Window {
        if self.length() == 0 {
            self
        } else {
            match self.seek_position(style) {
                Some(relative) => self.at(relative),
                None => self,
            }
        }
    }

    /// The number of bytes that the window shows.
    pub fn len(&self) -> (length: usize)
        requires
            self.start <= self.end,
        ensures
            length == self.length(),
    {
        self.end - self.start
    }

    /// The cursor, counted from the window's start.
    pub fn position(&self) -> (relative: u64)
        requires
            self.wf(),
        ensures
            relative == self.relative(),
    {
        self.position - self.start as u64
    }

    /// Puts the cursor `pos` bytes after the start, modulo the window's length; in a window
    /// that shows nothing `pos` is taken as it is.
    pub fn set_position(&mut self, pos: u64)
        requires
            old(self).start <= old(self).end,
            old(self).length() == 0 ==> old(self).start + pos <= u64::MAX,
        ensures
            *final(self) == old(self).at(
                if old(self).length() == 0 {
                    pos as int
                } else {
                    pos as int % old(self).length()
                },
            ),
            final(self).wf(),
    {
        let length: u64 = self.len() as u64;
        let relative: u64 = if length == 0 {
            pos
        } else {
            pos % length
        };
        self.position = self.start as u64 + relative;
    }

    /// Moves the cursor as `style` asks and reports where it then stands, counted from the
    /// window's start. The backing stream is not touched.
    pub fn seek(&mut self, style: SeekFrom) -> (result: Result<u64, InvalidSeek>)
        requires
            old(self).wf(),
            old(self).start <= old(self).end,
        ensures
            result == match old(self).seek_position(style) {
                Some(relative) => Ok::<u64, InvalidSeek>(relative as u64),
                None => Err::<u64, InvalidSeek>(InvalidSeek),
            },
            *final(self) == old(self).after_seek(style),
            final(self).wf(),
    {
        let length: u64 = self.len() as u64;
        if length == 0 {
            return Ok(0);
        }
        let (base, offset): (u64, i64) = match style {
            SeekFrom::Start(offset) => {
                let relative: u64 = offset % length;
                self.position = self.start as u64 + relative;
                return Ok(relative);
            },
            SeekFrom::End(offset) => (length, offset),
            SeekFrom::Current(offset) => (self.position(), offset),
        };
        let target: u64 = if offset >= 0 {
            base.wrapping_add(offset as u64)
        } else {
            let magnitude: u64 = (-(offset + 1)) as u64 + 1;
            if magnitude > base {
                return Err(InvalidSeek);
            }
            base - magnitude
        };
        let relative: u64 = if target > length {
            target % length
        } else {
            target
        };
        self.position = self.start as u64 + relative;
        Ok(relative)
    }

    /// Reads from the window's cursor on into `buf`, through a backing stream that the caller
    /// holds for itself, and moves the window's cursor past what was read.
    ///
    /// At or past the window's end nothing is read and nothing is touched. Else the stream is
    /// sent to the window's cursor and asked to fill the part of `buf` that the rest of the
    /// window allows. A preserving window first notes where the stream's cursor stands and
    /// puts it back there afterwards; any other leaves it where the window's cursor now is.
    /// A failure of the stream is handed on as it is, and the window's cursor stays. With a
    /// dependable stream there is none, and the count is the smallest of the buffer's length,
    /// the rest of the window and the rest of the stream.
    pub fn read_from<T: BackingStream>(&mut self, stream: &mut T, buf: &mut [u8]) -> (result:
        Result<usize, T::Error>)
        ensures
            old(self).wf() ==> final(self).wf(),
            final(stream).bytes() == old(stream).bytes(),
            final(buf)@.len() == old(buf)@.len(),
            old(self).remaining() == 0 ==> {
                &&& result == Ok::<usize, T::Error>(0usize)
                &&& *final(self) == *old(self)
                &&& final(stream).offset() == old(stream).offset()
                &&& final(buf)@ == old(buf)@
            },
            T::dependable() ==> result == Ok::<usize, T::Error>(
                vstd::math::min(
                    vstd::math::min(old(buf)@.len() as int, old(self).remaining()),
                    crate::stream::readable(old(stream).bytes(), old(self).position as int),
                ) as usize,
            ),
            match result {
                Ok(count) => {
                    &&& count <= old(buf)@.len()
                    &&& count <= old(self).remaining()
                    &&& count <= crate::stream::readable(
                        old(stream).bytes(),
                        old(self).position as int,
                    )
                    &&& final(buf)@ == crate::stream::filled(
                        old(buf)@,
                        old(stream).bytes(),
                        old(self).position as int,
                        count as int,
                    )
                    &&& *final(self) == old(self).advanced(count as int)
                    &&& old(self).remaining() > 0 ==> final(stream).offset() == if old(self)
                        .preserve {
                        old(stream).offset()
                    } else {
                        final(self).position as nat
                    }
                },
                Err(_) => *final(self) == *old(self),
            },
    {
        if self.position >= self.end as u64 {
            proof {
                assert(buf@ =~= crate::stream::filled(
                    buf@,
                    stream.bytes(),
                    self.position as int,
                    0,
                ));
            }
            return Ok(0);
        }
        let available: u64 = calculate_available_bytes(
            buf.len() as u64,
            self.end as u64,
            self.position,
        );
        let origin: Option<u64> = if self.preserve {
            match stream.stream_position() {
                Ok(at) => Some(at),
                Err(error) => {
                    return Err(error);
                },
            }
        } else {
            None
        };
        match stream.seek_to(self.position) {
            Ok(_) => {},
            Err(error) => {
                return Err(error);
            },
        }
        let ghost before = buf@;
        let (head, _) = buf.split_at_mut(available as usize);
        let count: usize = match stream.read(head) {
            Ok(count) => count,
            Err(error) => {
                return Err(error);
            },
        };
        proof {
            assert(buf@ =~= crate::stream::filled(
                before,
                stream.bytes(),
                self.position as int,
                count as int,
            ));
        }
        if let Some(at) = origin {
            match stream.seek_to(at) {
                Ok(_) => {},
                Err(error) => {
                    return Err(error);
                },
            }
        }
        self.position = self.position + count as u64;
        Ok(count)
    }

    /// Writes a prefix of `buf` at the window's cursor, through a backing stream that the
    /// caller holds for itself, and moves the window's cursor past what was written.
    ///
    /// At or past the window's end nothing is written and nothing is touched. Else the stream
    /// is sent to the window's cursor and handed the part of `buf` that the rest of the window
    /// allows. A preserving window first notes where the stream's cursor stands and puts it
    /// back there afterwards; any other leaves it where the window's cursor now is. A failure
    /// of the stream is handed on as it is, and the window's cursor stays: the stream then
    /// holds what it held, unless it failed only on the way back. With a dependable stream
    /// there is none, and the count is the smaller of the buffer's length and the rest of the
    /// window.
    pub fn write_to<T: BackingStream>(&mut self, stream: &mut T, buf: &[u8]) -> (result: Result<
        usize,
        T::Error,
    >)
        ensures
            old(self).wf() ==> final(self).wf(),
            old(self).remaining() == 0 ==> {
                &&& result == Ok::<usize, T::Error>(0usize)
                &&& *final(self) == *old(self)
                &&& final(stream).bytes() == old(stream).bytes()
                &&& final(stream).offset() == old(stream).offset()
            },
            T::dependable() ==> result == Ok::<usize, T::Error>(
                vstd::math::min(buf@.len() as int, old(self).remaining()) as usize,
            ),
            match result {
                Ok(count) => {
                    &&& count <= buf@.len()
                    &&& count <= old(self).remaining()
                    &&& final(stream).bytes() == crate::stream::written(
                        old(stream).bytes(),
                        old(self).position as int,
                        buf@.take(count as int),
                    )
                    &&& *final(self) == old(self).advanced(count as int)
                    &&& old(self).remaining() > 0 ==> final(stream).offset() == if old(self)
                        .preserve {
                        old(stream).offset()
                    } else {
                        final(self).position as nat
                    }
                },
                Err(_) => {
                    &&& *final(self) == *old(self)
                    &&& exists|count: int|
                        0 <= count <= buf@.len() && count <= old(self).remaining() && final(
                            stream
                        ).bytes() == crate::stream::written(
                            old(stream).bytes(),
                            old(self).position as int,
                            #[trigger] buf@.take(count),
                        )
                },
            },
    {
        if self.position >= self.end as u64 {
            proof {
                assert(buf@.take(0).len() == 0);
            }
            return Ok(0);
        }
        let available: u64 = calculate_available_bytes(
            buf.len() as u64,
            self.end as u64,
            self.position,
        );
        proof {
            assert(buf@.take(0).len() == 0);
        }
        let origin: Option<u64> = if self.preserve {
            match stream.stream_position() {
                Ok(at) => Some(at),
                Err(error) => {
                    return Err(error);
                },
            }
        } else {
            None
        };
        match stream.seek_to(self.position) {
            Ok(_) => {},
            Err(error) => {
                return Err(error);
            },
        }
        let head: &[u8] = vstd::slice::slice_subrange(buf, 0, available as usize);
        let count: usize = match stream.write(head) {
            Ok(count) => count,
            Err(error) => {
                return Err(error);
            },
        };
        proof {
            assert(head@.take(count as int) =~= buf@.take(count as int));
        }
        if let Some(at) = origin {
            match stream.seek_to(at) {
                Ok(_) => {},
                Err(error) => {
                    return Err(error);
                },
            }
        }
        self.position = self.position + count as u64;
        Ok(count)
    }
}

/// A seek from the start into a window that shows something reports the offset modulo the
/// window's length, and the cursor, counted from the window's start, then stands there.
pub proof fn lemma_seek_from_start_wraps(window: Window, offset: u64)
    requires
        window.length() > 0,
    ensures
        window.seek_position(SeekFrom::Start(offset)) == Some(offset as int % window.length()),
        window.after_seek(SeekFrom::Start(offset)).relative() == offset as int % window.length(),
{
}

/// In a window that shows something, a seek backwards from the cursor by more than the cursor
/// is away from the start is refused, and so is one backwards from the end by more than the
/// window's length: it is not moved to the start instead, and the window stays as it was.
pub proof fn lemma_seek_before_start_is_refused(window: Window, style: SeekFrom)
    requires
        window.length() > 0,
        match style {
            SeekFrom::Start(_) => false,
            SeekFrom::End(offset) => offset < 0 && -offset > window.length(),
            SeekFrom::Current(offset) => offset < 0 && -offset > window.relative(),
        },
    ensures
        window.seek_position(style) is None,
        window.after_seek(style) == window,
{
}

/// A seek by nothing from the cursor leaves the cursor where it is and reports where it
/// stands. The one window left out is one that shows nothing and whose cursor was put past
/// its start: there the seek reports 0.
pub proof fn lemma_seek_nowhere(window: Window)
    requires
        window.wf(),
        window.start <= window.end,
        window.length() > 0 || window.relative() == 0,
    ensures
        window.seek_position(SeekFrom::Current(0)) == Some(window.relative()),
        window.after_seek(SeekFrom::Current(0)) == window,
{
}

/// After any seek the cursor of a well-formed window lies in the window, its end included.
pub proof fn lemma_seek_stays_in_window(window: Window, style: SeekFrom)
    requires
        window.wf(),
        window.length() > 0,
    ensures
        window.after_seek(style).wf(),
        0 <= window.after_seek(style).relative() <= window.length(),
        window.seek_position(style) matches Some(relative) ==> relative
            == window.after_seek(style).relative(),
{
}

/// The number of bytes that a transfer may move when the buffer holds `buffer_length` bytes,
/// the window ends at `end` and its cursor stands at `position`: the smaller of the buffer's
/// length and the rest of the window.
pub fn calculate_available_bytes(buffer_length: u64, end: u64, position: u64) -> (available: u64)
    requires
        position <= end,
    ensures
        available == vstd::math::min(buffer_length as int, end - position),
{
    if buffer_length > end - position {
        end - position
    } else {
        buffer_length
    }
}

} // verus!
