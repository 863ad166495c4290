//! Pipe handles for guests that reach I/O through capabilities.
//!
//! A pipe is one end of a stream: it can be read or written, and never
//! repositioned. To a guest it looks like any other file-like handle, so it
//! answers the operations that a pipe cannot perform too, each with a fixed
//! error.
//!
//! Several handles may stand for one stream. They share its state and one
//! rights value, and the stream can be taken back only through the last of
//! them. That shared state lives in a [`Store`], which every operation that
//! touches it takes as an argument; a handle itself is a plain value, and a
//! clone of it is equal to it.

pub mod arena;
pub mod cursor;
pub mod errno;
pub mod handle;
pub mod laws;
pub mod read_pipe;
pub mod rights;
pub mod store;
pub mod stream;
pub mod types;
pub mod write_pipe;

pub use arena::{Arena, Key};
pub use cursor::Cursor;
pub use errno::Errno;
pub use handle::Handle;
pub use read_pipe::ReadPipe;
pub use rights::{HandleRights, Right, Rights};
pub use store::Store;
pub use stream::{ByteSink, ByteSource};
pub use types::{Advice, Fdflags, Filesize, Filestat, Filetype, Oflags};
pub use write_pipe::WritePipe;
