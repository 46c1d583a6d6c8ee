//! The windowed cursor: a window together with a shared handle to the stream it looks into.

use crate::memory::MemoryStream;
use crate::shared::{acquire, locked, share};
use crate::stream::BackingStream;
use crate::window::{InvalidSeek, SeekFrom, Window};
use std::sync::Arc;
use std::sync::Mutex;
use vstd::prelude::*;
use vstd::std_specs::convert::FromSpecImpl;

verus! {

/// A window over a backing stream that any number of such windows may share.
///
/// Each window has bounds, a cursor and a policy of its own; the stream has one physical
/// cursor, which only a read or a write moves, and only while the window holds the stream for
/// itself.
#[derive(Debug)]
#[verifier::reject_recursive_types(T)]
pub struct SubCursor<T> {
    cursor: Arc<Mutex<T>>,
    window: Window,
}

impl<T> View for SubCursor<T> {
    type V = Window;

    closed spec fn view(&self) -> Window {
        self.window
    }
}

impl SubCursor<MemoryStream> {
    /// A window without bounds over an empty buffer of its own.
    pub fn new() -> (created: Self)
        ensures
            created@ == (Window { start: 0, end: 0, position: 0, preserve: false }),
    {
        SubCursor {
            cursor: Arc::new(Mutex::new(MemoryStream::new(Vec::new()))),
            window: Window { start: 0, end: 0, position: 0, preserve: false },
        }
    }
}

impl<T> SubCursor<T> {
    #[verifier::type_invariant]
    spec fn cursor_in_window(self) -> bool {
        self.window.wf()
    }

    /// The handle to the backing stream. Windows with equal handles share one stream.
    pub closed spec fn handle(&self) -> Arc<Mutex<T>> {
        self.cursor
    }

    /// A window on the same stream that starts at `value`, with its cursor there. That
    /// `value` is not past the end is not asked.
    pub fn start(&self, value: usize) -> (derived: Self)
        ensures
            derived@ == (Window { start: value, position: value as u64, ..self@ }),
            derived.handle() == self.handle(),
    {
        SubCursor {
            cursor: share(&self.cursor),
            window: Window {
                start: value,
                end: self.window.end,
                position: value as u64,
                preserve: self.window.preserve,
            },
        }
    }

    /// A window on the same stream that ends at `value`, with its cursor at the start. That
    /// `value` is not before the start is not asked.
    pub fn end(&self, value: usize) -> (derived: Self)
        ensures
            derived@ == (Window { end: value, position: self@.start as u64, ..self@ }),
            derived.handle() == self.handle(),
    {
        SubCursor {
            cursor: share(&self.cursor),
            window: Window {
                start: self.window.start,
                end: value,
                position: self.window.start as u64,
                preserve: self.window.preserve,
            },
        }
    }

    /// The same window on the same stream, with the policy on the stream's cursor set to
    /// `value`.
    pub fn preserve(&self, value: bool) -> (derived: Self)
        ensures
            derived@ == (Window { preserve: value, ..self@ }),
            derived.handle() == self.handle(),
    {
        proof {
            use_type_invariant(self);
        }
        SubCursor {
            cursor: share(&self.cursor),
            window: Window {
                start: self.window.start,
                end: self.window.end,
                position: self.window.position,
                preserve: value,
            },
        }
    }

    /// The number of bytes that the window shows.
    pub fn len(&self) -> (length: usize)
        requires
            self@.start <= self@.end,
        ensures
            length == self@.length(),
    {
        self.window.len()
    }

    /// Whether the window shows nothing.
    pub fn is_empty(&self) -> (empty: bool)
        requires
            self@.start <= self@.end,
        ensures
            empty == (self@.length() == 0),
    {
        self.window.len() == 0
    }

    /// The cursor, counted from the window's start.
    pub fn position(&self) -> (relative: u64)
        ensures
            relative == self@.relative(),
    {
        proof {
            use_type_invariant(self);
        }
        self.window.position()
    }

    /// Puts the cursor `pos` bytes after the start, modulo the window's length; in a window
    /// that shows nothing `pos` is taken as it is.
    pub fn set_position(&mut self, pos: u64)
        requires
            old(self)@.start <= old(self)@.end,
            old(self)@.length() == 0 ==> old(self)@.start + pos <= u64::MAX,
        ensures
            final(self)@ == old(self)@.at(
                if old(self)@.length() == 0 {
                    pos as int
                } else {
                    pos as int % old(self)@.length()
                },
            ),
            final(self).handle() == old(self).handle(),
    {
        let mut window = self.window;
        window.set_position(pos);
        self.window = window;
    }

    /// A fresh window with the same bounds and policy on the same stream, its cursor at the
    /// start.
    pub fn sub_cursor(&self) -> (derived: Self)
        ensures
            derived@ == (Window { position: self@.start as u64, ..self@ }),
            derived.handle() == self.handle(),
    {
        SubCursor {
            cursor: share(&self.cursor),
            window: Window {
                start: self.window.start,
                end: self.window.end,
                position: self.window.start as u64,
                preserve: self.window.preserve,
            },
        }
    }

    /// Gives up the window and hands out the handle to its stream.
    pub fn into_inner(self) -> (handle: Arc<Mutex<T>>)
        ensures
            handle == self.handle(),
    {
        self.cursor
    }

    /// The absolute offset of the first byte that the window shows.
    pub fn get_start(&self) -> (start: usize)
        ensures
            start == self@.start,
    {
        self.window.start
    }

    /// The absolute offset just past the last byte that the window shows.
    pub fn get_end(&self) -> (end: usize)
        ensures
            end == self@.end,
    {
        self.window.end
    }

    /// Moves the cursor as `style` asks and reports where it then stands, counted from the
    /// window's start. The backing stream is neither taken nor touched.
    pub fn seek(&mut self, style: SeekFrom) -> (result: Result<u64, InvalidSeek>)
        requires
            old(self)@.start <= old(self)@.end,
        ensures
            result == match old(self)@.seek_position(style) {
                Some(relative) => Ok::<u64, InvalidSeek>(relative as u64),
                None => Err::<u64, InvalidSeek>(InvalidSeek),
            },
            final(self)@ == old(self)@.after_seek(style),
            final(self).handle() == old(self).handle(),
    {
        proof {
            use_type_invariant(&*self);
        }
        let mut window = self.window;
        let result = window.seek(style);
        self.window = window;
        result
    }

    /// The window's length, as a stream reports its own.
    pub fn stream_len(&mut self) -> (result: Result<u64, InvalidSeek>)
        requires
            old(self)@.start <= old(self)@.end,
        ensures
            result == Ok::<u64, InvalidSeek>(old(self)@.length() as u64),
            *final(self) == *old(self),
    {
        Ok(self.window.len() as u64)
    }

    /// The window's cursor, as a stream reports its own.
    pub fn stream_position(&mut self) -> (result: Result<u64, InvalidSeek>)
        ensures
            result == Ok::<u64, InvalidSeek>(old(self)@.relative() as u64),
            *final(self) == *old(self),
    {
        proof {
            use_type_invariant(&*self);
        }
        Ok(self.window.position())
    }

    /// The window as a line of text: its length, its cursor counted from the start, and its
    /// policy on the stream's cursor.
    pub fn to_string(&self) -> (text: String)
        requires
            self@.start <= self@.end,
        ensures
            text@ == crate::text::window_text(self@),
    {
        proof {
            use_type_invariant(self);
        }
        self.window.to_string()
    }
}

impl<T: BackingStream> SubCursor<T> {
    /// Reads from the window's cursor on into `buf` and moves the cursor past what was read.
    ///
    /// At or past the window's end nothing is read and the stream is not taken. Else the
    /// window waits for the stream, holds it for the whole transfer, and lets it go.
    pub fn read(&mut self, buf: &mut [u8]) -> (result: Result<usize, T::Error>)
        ensures
            final(self).handle() == old(self).handle(),
            final(buf)@.len() == old(buf)@.len(),
            old(self)@.remaining() == 0 ==> {
                &&& result == Ok::<usize, T::Error>(0usize)
                &&& final(self)@ == old(self)@
                &&& final(buf)@ == old(buf)@
            },
            T::dependable() ==> result is Ok,
            match result {
                Ok(count) => {
                    &&& count <= old(buf)@.len()
                    &&& count <= old(self)@.remaining()
                    &&& final(self)@ == old(self)@.advanced(count as int)
                    &&& final(buf)@.skip(count as int) == old(buf)@.skip(count as int)
                },
                Err(_) => final(self)@ == old(self)@,
            },
    {
        proof {
            use_type_invariant(&*self);
        }
        if self.window.position >= self.window.end as u64 {
            return Ok(0);
        }
        let ghost before = buf@;
        let mut guard = acquire(&self.cursor);
        let stream = locked(&mut guard);
        let mut window = self.window;
        let result = window.read_from(stream, buf);
        self.window = window;
        proof {
            if let Ok(count) = result {
                assert(buf@.skip(count as int) =~= before.skip(count as int));
            }
        }
        result
    }

    /// Writes a prefix of `buf` at the window's cursor and moves the cursor past what was
    /// written.
    ///
    /// At or past the window's end nothing is written and the stream is not taken. Else the
    /// window waits for the stream, holds it for the whole transfer, and lets it go.
    pub fn write(&mut self, buf: &[u8]) -> (result: Result<usize, T::Error>)
        ensures
            final(self).handle() == old(self).handle(),
            old(self)@.remaining() == 0 ==> {
                &&& result == Ok::<usize, T::Error>(0usize)
                &&& final(self)@ == old(self)@
            },
            T::dependable() ==> result == Ok::<usize, T::Error>(
                vstd::math::min(buf@.len() as int, old(self)@.remaining()) as usize,
            ),
            match result {
                Ok(count) => {
                    &&& count <= buf@.len()
                    &&& count <= old(self)@.remaining()
                    &&& final(self)@ == old(self)@.advanced(count as int)
                },
                Err(_) => final(self)@ == old(self)@,
            },
    {
        proof {
            use_type_invariant(&*self);
        }
        if self.window.position >= self.window.end as u64 {
            return Ok(0);
        }
        let mut guard = acquire(&self.cursor);
        let stream = locked(&mut guard);
        let mut window = self.window;
        let result = window.write_to(stream, buf);
        self.window = window;
        result
    }

    /// Waits for the stream and has it hand on what it still buffers; the window buffers
    /// nothing itself.
    pub fn flush(&mut self) -> (result: Result<(), T::Error>)
        ensures
            *final(self) == *old(self),
            T::dependable() ==> result is Ok,
    {
        let mut guard = acquire(&self.cursor);
        let stream = locked(&mut guard);
        stream.flush()
    }
}

impl<T> Clone for SubCursor<T> {
    /// The same window on the same stream, cursor and all.
    fn clone(&self) -> (copy: Self)
        ensures
            copy@ == self@,
            copy.handle() == self.handle(),
    {
        proof {
            use_type_invariant(self);
        }
        SubCursor { cursor: share(&self.cursor), window: self.window }
    }
}

impl<T: Default> Default for SubCursor<T> {
    /// A window without bounds over a stream in its default state.
    fn default() -> (created: Self)
        ensures
            created@ == (Window { start: 0, end: 0, position: 0, preserve: false }),
    {
        SubCursor {
            cursor: Arc::new(Mutex::new(T::default())),
            window: Window { start: 0, end: 0, position: 0, preserve: false },
        }
    }
}

impl<T: BackingStream> From<T> for SubCursor<T> {
    /// A preserving window over all of `value`: it ends at the length that the stream
    /// reports, cut to the machine's word, or at 0 where the stream fails to report one, as
    /// a dependable stream never does.
    fn from(value: T) -> (created: Self)
        ensures
            created@.start == 0,
            created@.position == 0,
            created@.preserve,
            created@.end == 0 || created@.end == value.bytes().len() as usize,
            T::dependable() ==> created@.end == value.bytes().len() as usize,
    {
        let mut value = value;
        let end: usize = match value.stream_len() {
            Ok(length) => #[verifier::truncate]
            (length as usize),
            Err(_) => 0,
        };
        SubCursor {
            cursor: Arc::new(Mutex::new(value)),
            window: Window { start: 0, end, position: 0, preserve: true },
        }
    }
}

impl<T: BackingStream> FromSpecImpl<T> for SubCursor<T> {
    open spec fn obeys_from_spec() -> bool {
        false
    }

    open spec fn from_spec(value: T) -> Self {
        arbitrary()
    }
}

impl From<Vec<u8>> for SubCursor<MemoryStream> {
    /// A preserving window over all of a buffer.
    fn from(value: Vec<u8>) -> (created: Self)
        ensures
            created@ == (Window { start: 0, end: value.len(), position: 0, preserve: true }),
    {
        let end: usize = value.len();
        SubCursor {
            cursor: Arc::new(Mutex::new(MemoryStream::new(value))),
            window: Window { start: 0, end, position: 0, preserve: true },
        }
    }
}

impl FromSpecImpl<Vec<u8>> for SubCursor<MemoryStream> {
    open spec fn obeys_from_spec() -> bool {
        false
    }

    open spec fn from_spec(value: Vec<u8>) -> Self {
        arbitrary()
    }
}

impl<T> From<Mutex<T>> for SubCursor<T> {
    /// A preserving window without bounds over the stream that `value` guards.
    fn from(value: Mutex<T>) -> (created: Self)
        ensures
            created@ == (Window { start: 0, end: 0, position: 0, preserve: true }),
            created.handle() == value,
    {
        SubCursor {
            cursor: Arc::new(value),
            window: Window { start: 0, end: 0, position: 0, preserve: true },
        }
    }
}

impl<T> FromSpecImpl<Mutex<T>> for SubCursor<T> {
    open spec fn obeys_from_spec() -> bool {
        false
    }

    open spec fn from_spec(value: Mutex<T>) -> Self {
        arbitrary()
    }
}

impl<T> From<Arc<Mutex<T>>> for SubCursor<T> {
    /// A preserving window without bounds that shares the stream behind `value`.
    fn from(value: Arc<Mutex<T>>) -> (created: Self)
        ensures
            created@ == (Window { start: 0, end: 0, position: 0, preserve: true }),
            created.handle() == value,
    {
        SubCursor {
            cursor: value,
            window: Window { start: 0, end: 0, position: 0, preserve: true },
        }
    }
}

impl<T> FromSpecImpl<Arc<Mutex<T>>> for SubCursor<T> {
    open spec fn obeys_from_spec() -> bool {
        false
    }

    open spec fn from_spec(value: Arc<Mutex<T>>) -> Self {
        arbitrary()
    }
}

} // verus!
