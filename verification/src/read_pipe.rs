//! The read end of a pipe.

use crate::arena::Key;
use crate::cursor::{Cursor, CursorView};
use crate::errno::{lift, Errno};
use crate::handle::Handle;
use crate::rights::{HandleRights, Right, Rights};
use crate::store::{PipeView, Store};
use crate::stream::{capacity, contents, same_shape, ByteSource};
use crate::types::Filesize;
use core::marker::PhantomData;
use vstd::prelude::*;
use vstd::slice::slice_to_vec;
use vstd::utf8::encode_utf8;

verus! {

/// The rights that a new read end holds: to read, to sync, to set flags, to
/// stat and to poll; not to write, to seek, or to act on a directory.
pub open spec fn read_rights() -> Set<Right> {
    set![
        Right::FdDatasync,
        Right::FdFdstatSetFlags,
        Right::FdRead,
        Right::FdSync,
        Right::FdFilestatGet,
        Right::PollFdReadwrite,
    ]
}

/// A handle to a stream that can be read and not repositioned.
///
/// The handle is two keys into a [`Store`]. It cannot be copied: another
/// handle to the same stream comes from [`Handle::try_clone`], and a handle
/// that is no longer needed goes back by [`ReadPipe::close`] or
/// [`ReadPipe::try_into_inner`].
#[derive(Debug)]
pub struct ReadPipe<R> {
    rights: Key,
    reader: Key,
    stream: PhantomData<R>,
}

impl<R> View for ReadPipe<R> {
    type V = PipeView;

    closed spec fn view(&self) -> PipeView {
        PipeView { rights: self.rights@, stream: self.reader@ }
    }
}

impl<R: ByteSource> ReadPipe<R> {
    /// A read end over `r`, which the store takes in.
    pub fn new(store: &mut Store<R>, r: R) -> (pipe: Self)
        ensures
            pipe@ == old(store)@.next_pipe(old(store)@.streams.next),
            final(store)@ == old(store)@.shared(r).opened(final(store)@.rights_of(pipe@)),
            final(store)@.rights_of(pipe@).grants(read_rights(), Set::empty()),
            final(store)@.holds(pipe@),
            final(store)@.sharers(pipe@) == 1,
    {
        let reader = store.streams.share(r);
        Self::from_shared(store, reader)
    }

    /// A read end over a stream that is in the store already. The handle
    /// takes over the reference `reader`, and has rights of its own.
    pub fn from_shared(store: &mut Store<R>, reader: Key) -> (pipe: Self)
        requires
            old(store)@.streams.contains(reader@),
        ensures
            pipe@ == old(store)@.next_pipe(reader@),
            final(store)@ == old(store)@.opened(final(store)@.rights_of(pipe@)),
            final(store)@.rights_of(pipe@).grants(read_rights(), Set::empty()),
            final(store)@.holds(pipe@),
    {
        let base = Rights::empty().with(Right::FdDatasync).with(Right::FdFdstatSetFlags).with(
            Right::FdRead,
        ).with(Right::FdSync).with(Right::FdFilestatGet).with(Right::PollFdReadwrite);
        assert(base@ =~= read_rights());
        let rights = store.rights.share(HandleRights::new(base, Rights::empty()));
        ReadPipe { rights, reader, stream: PhantomData }
    }

    /// Takes the stream back out of the store. Only the last reference to a
    /// stream can do so: while there are others, nothing changes and the
    /// handle comes back.
    pub fn try_into_inner(self, store: &mut Store<R>) -> (res: Result<R, Self>)
        requires
            old(store)@.holds(self@),
        ensures
            match res {
                Ok(r) => {
                    &&& old(store)@.sharers(self@) == 1
                    &&& r == old(store)@.stream_of(self@)
                    &&& final(store)@ == old(store)@.closed(self@)
                },
                Err(pipe) => {
                    &&& old(store)@.sharers(self@) > 1
                    &&& pipe == self
                    &&& final(store)@ == old(store)@
                },
            },
    {
        let ReadPipe { rights, reader, stream } = self;
        match store.streams.try_unwrap(reader) {
            Ok(r) => {
                let _ = store.rights.release(rights);
                Ok(r)
            },
            Err(reader) => Err(ReadPipe { rights, reader, stream }),
        }
    }

    /// Gives the handle up. The stream goes with the last reference to it,
    /// the rights with the last handle that has them.
    pub fn close(self, store: &mut Store<R>)
        requires
            old(store)@.holds(self@),
        ensures
            final(store)@ == old(store)@.closed(self@),
    {
        let ReadPipe { rights, reader, .. } = self;
        let _ = store.streams.release(reader);
        let _ = store.rights.release(rights);
    }

    /// Whether the handle can be used with `store`.
    pub fn is_open(&self, store: &Store<R>) -> (b: bool)
        ensures
            b == store@.holds(self@),
    {
        store.rights.contains(&self.rights) && store.streams.contains(&self.reader)
    }

    /// The number of references to the stream under the handle: one while
    /// the handle is the only one.
    pub fn sharers(&self, store: &Store<R>) -> (n: usize)
        requires
            store@.holds(self@),
        ensures
            n == store@.sharers(self@),
            n >= 1,
    {
        store.streams.holders(&self.reader)
    }

    /// Whether the handle can be cloned: it can be used with `store`, and
    /// the counts of its two cells have room for one more.
    pub fn can_clone(&self, store: &Store<R>) -> (b: bool)
        ensures
            b == (store@.holds(self@) && store@.rights.holders(self@.rights) < usize::MAX
                && store@.sharers(self@) < usize::MAX),
    {
        self.is_open(store) && store.rights.holders(&self.rights) < usize::MAX
            && store.streams.holders(&self.reader) < usize::MAX
    }

    /// Reads at an offset, which a pipe can do at offset zero only: there it
    /// is a plain read. At any other offset it is refused, and nothing is
    /// read.
    pub fn preadv(&self, store: &mut Store<R>, buf: &mut Vec<Vec<u8>>, offset: Filesize) -> (res:
        Result<usize, Errno>)
        requires
            old(store)@.holds(self@),
        ensures
            offset != 0 ==> res == Err::<usize, Errno>(Errno::Spipe),
            offset != 0 ==> final(store)@ == old(store)@,
            offset != 0 ==> final(buf)@ == old(buf)@,
            offset == 0 ==> old(store)@.read_step(
                self@,
                contents(old(buf)@),
                final(store)@,
                contents(final(buf)@),
                res,
            ),
            same_shape(contents(old(buf)@), contents(final(buf)@)),
            res matches Ok(n) ==> n <= capacity(contents(old(buf)@)),
            final(store)@.holds(self@),
    {
        if offset != 0 {
            return Err(Errno::Spipe);
        }
        self.read_vectored(store, buf)
    }

    /// Reads from the stream into the buffers in order, and answers how
    /// many bytes were read; zero at the end of the stream. Every handle to
    /// the stream goes on from where this read ends.
    pub fn read_vectored(&self, store: &mut Store<R>, iovs: &mut Vec<Vec<u8>>) -> (res: Result<
        usize,
        Errno,
    >)
        requires
            old(store)@.holds(self@),
        ensures
            old(store)@.read_step(
                self@,
                contents(old(iovs)@),
                final(store)@,
                contents(final(iovs)@),
                res,
            ),
            same_shape(contents(old(iovs)@), contents(final(iovs)@)),
            res matches Ok(n) ==> n <= capacity(contents(old(iovs)@)),
            final(store)@.holds(self@),
    {
        let reader = store.streams.get_mut(&self.reader);
        lift(reader.read_vectored(iovs))
    }
}

impl<R: ByteSource> Handle for ReadPipe<R> {
    type Stream = R;

    open spec fn cells(&self) -> PipeView {
        self@
    }

    fn try_clone(&self, store: &mut Store<R>) -> (other: Self) {
        let rights = store.rights.retain(&self.rights);
        let reader = store.streams.retain(&self.reader);
        ReadPipe { rights, reader, stream: PhantomData }
    }

    fn get_rights(&self, store: &Store<R>) -> (rights: HandleRights) {
        *store.rights.get(&self.rights)
    }

    fn set_rights(&self, store: &mut Store<R>, rights: HandleRights) {
        let _ = store.rights.replace(&self.rights, rights);
    }
}

impl ReadPipe<Cursor> {
    /// A read end over the bytes `bytes`, read from their start.
    pub fn from_bytes(store: &mut Store<Cursor>, bytes: Vec<u8>) -> (pipe: Self)
        ensures
            pipe@ == old(store)@.next_pipe(old(store)@.streams.next),
            final(store)@ == old(store)@.shared(final(store)@.stream_of(pipe@)).opened(
                final(store)@.rights_of(pipe@),
            ),
            final(store)@.stream_of(pipe@)@ == (CursorView { data: bytes@, pos: 0 }),
            final(store)@.rights_of(pipe@).grants(read_rights(), Set::empty()),
            final(store)@.holds(pipe@),
            final(store)@.sharers(pipe@) == 1,
    {
        Self::new(store, Cursor::new(bytes))
    }

    /// A read end over a copy of the bytes `bytes`.
    pub fn from_slice(store: &mut Store<Cursor>, bytes: &[u8]) -> (pipe: Self)
        ensures
            pipe@ == old(store)@.next_pipe(old(store)@.streams.next),
            final(store)@ == old(store)@.shared(final(store)@.stream_of(pipe@)).opened(
                final(store)@.rights_of(pipe@),
            ),
            final(store)@.stream_of(pipe@)@ == (CursorView { data: bytes@, pos: 0 }),
            final(store)@.rights_of(pipe@).grants(read_rights(), Set::empty()),
            final(store)@.holds(pipe@),
            final(store)@.sharers(pipe@) == 1,
    {
        Self::from_bytes(store, slice_to_vec(bytes))
    }

    /// A read end over the bytes of the text `text`.
    pub fn from_text(store: &mut Store<Cursor>, text: &str) -> (pipe: Self)
        ensures
            pipe@ == old(store)@.next_pipe(old(store)@.streams.next),
            final(store)@ == old(store)@.shared(final(store)@.stream_of(pipe@)).opened(
                final(store)@.rights_of(pipe@),
            ),
            final(store)@.stream_of(pipe@)@ == (CursorView { data: encode_utf8(text@), pos: 0 }),
            final(store)@.rights_of(pipe@).grants(read_rights(), Set::empty()),
            final(store)@.holds(pipe@),
            final(store)@.sharers(pipe@) == 1,
    {
        Self::from_slice(store, text.as_bytes())
    }

    /// A read end over the bytes of the text `text`.
    pub fn from_string(store: &mut Store<Cursor>, text: String) -> (pipe: Self)
        ensures
            pipe@ == old(store)@.next_pipe(old(store)@.streams.next),
            final(store)@ == old(store)@.shared(final(store)@.stream_of(pipe@)).opened(
                final(store)@.rights_of(pipe@),
            ),
            final(store)@.stream_of(pipe@)@ == (CursorView { data: encode_utf8(text@), pos: 0 }),
            final(store)@.rights_of(pipe@).grants(read_rights(), Set::empty()),
            final(store)@.holds(pipe@),
            final(store)@.sharers(pipe@) == 1,
    {
        Self::from_text(store, text.as_str())
    }
}

} // verus!
