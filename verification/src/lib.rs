//! A window over a seekable byte stream.
//!
//! A [`SubCursor`] shows the range `[start, end)` of a backing stream as if it were a stream
//! of its own, with a cursor that counts from the window's start. Any number of windows may
//! share one stream: each has bounds, a cursor and a policy of its own, and takes the stream
//! for itself while it reads or writes.
//!
//! - [`window`]: the window as plain data, the algebra of its seeks, and the two transfers
//!   through a stream that the caller holds.
//! - [`stream`]: what a window asks of a backing stream, stated over the bytes the stream
//!   holds and the offset of its cursor.
//! - [`memory`]: a backing stream in memory.
//! - [`sub_cursor`]: the window together with the shared handle to its stream.
//! - [`shared`]: what is taken on trust of that handle.
//! - [`text`]: the window as a line of text.

pub mod memory;
pub mod shared;
pub mod stream;
pub mod sub_cursor;
pub mod text;
pub mod window;

pub use crate::memory::{MemoryStream, OutOfRange};
pub use crate::stream::BackingStream;
pub use crate::sub_cursor::SubCursor;
pub use crate::window::{calculate_available_bytes, InvalidSeek, SeekFrom, Window};
