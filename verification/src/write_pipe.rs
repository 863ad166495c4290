//! The write end of a pipe.

use crate::arena::Key;
use crate::cursor::{Cursor, CursorView};
use crate::errno::{lift, Errno};
use crate::handle::Handle;
use crate::rights::{HandleRights, Right, Rights};
use crate::store::{PipeView, Store};
use crate::stream::{capacity, contents, ByteSink};
use crate::types::Filesize;
use core::marker::PhantomData;
use vstd::prelude::*;

verus! {

/// The rights that a new write end holds: to write, to sync, to set flags,
/// to stat and to poll; not to read, to seek, or to act on a directory.
pub open spec fn write_rights() -> Set<Right> {
    set![
        Right::FdDatasync,
        Right::FdFdstatSetFlags,
        Right::FdSync,
        Right::FdWrite,
        Right::FdFilestatGet,
        Right::PollFdReadwrite,
    ]
}

/// A handle to a stream that can be written and not repositioned.
///
/// The handle is two keys into a [`Store`]. It cannot be copied: another
/// handle to the same stream comes from [`Handle::try_clone`], and a handle
/// that is no longer needed goes back by [`WritePipe::close`] or
/// [`WritePipe::try_into_inner`].
#[derive(Debug)]
pub struct WritePipe<W> {
    rights: Key,
    writer: Key,
    stream: PhantomData<W>,
}

impl<W> View for WritePipe<W> {
    type V = PipeView;

    closed spec fn view(&self) -> PipeView {
        PipeView { rights: self.rights@, stream: self.writer@ }
    }
}

impl<W: ByteSink> WritePipe<W> {
    /// A write end over `w`, which the store takes in.
    pub fn new(store: &mut Store<W>, w: W) -> (pipe: Self)
        ensures
            pipe@ == old(store)@.next_pipe(old(store)@.streams.next),
            final(store)@ == old(store)@.shared(w).opened(final(store)@.rights_of(pipe@)),
            final(store)@.rights_of(pipe@).grants(write_rights(), Set::empty()),
            final(store)@.holds(pipe@),
            final(store)@.sharers(pipe@) == 1,
    {
        let writer = store.streams.share(w);
        Self::from_shared(store, writer)
    }

    /// A write end over a stream that is in the store already. The handle
    /// takes over the reference `writer`, and has rights of its own.
    pub fn from_shared(store: &mut Store<W>, writer: Key) -> (pipe: Self)
        requires
            old(store)@.streams.contains(writer@),
        ensures
            pipe@ == old(store)@.next_pipe(writer@),
            final(store)@ == old(store)@.opened(final(store)@.rights_of(pipe@)),
            final(store)@.rights_of(pipe@).grants(write_rights(), Set::empty()),
            final(store)@.holds(pipe@),
    {
        let base = Rights::empty().with(Right::FdDatasync).with(Right::FdFdstatSetFlags).with(
            Right::FdSync,
        ).with(Right::FdWrite).with(Right::FdFilestatGet).with(Right::PollFdReadwrite);
        assert(base@ =~= write_rights());
        let rights = store.rights.share(HandleRights::new(base, Rights::empty()));
        WritePipe { rights, writer, stream: PhantomData }
    }

    /// Takes the stream back out of the store. Only the last reference to a
    /// stream can do so: while there are others, nothing changes and the
    /// handle comes back.
    pub fn try_into_inner(self, store: &mut Store<W>) -> (res: Result<W, Self>)
        requires
            old(store)@.holds(self@),
        ensures
            match res {
                Ok(w) => {
                    &&& old(store)@.sharers(self@) == 1
                    &&& w == old(store)@.stream_of(self@)
                    &&& final(store)@ == old(store)@.closed(self@)
                },
                Err(pipe) => {
                    &&& old(store)@.sharers(self@) > 1
                    &&& pipe == self
                    &&& final(store)@ == old(store)@
                },
            },
    {
        let WritePipe { rights, writer, stream } = self;
        match store.streams.try_unwrap(writer) {
            Ok(w) => {
                let _ = store.rights.release(rights);
                Ok(w)
            },
            Err(writer) => Err(WritePipe { rights, writer, stream }),
        }
    }

    /// Gives the handle up. The stream goes with the last reference to it,
    /// the rights with the last handle that has them.
    pub fn close(self, store: &mut Store<W>)
        requires
            old(store)@.holds(self@),
        ensures
            final(store)@ == old(store)@.closed(self@),
    {
        let WritePipe { rights, writer, .. } = self;
        let _ = store.streams.release(writer);
        let _ = store.rights.release(rights);
    }

    /// Whether the handle can be used with `store`.
    pub fn is_open(&self, store: &Store<W>) -> (b: bool)
        ensures
            b == store@.holds(self@),
    {
        store.rights.contains(&self.rights) && store.streams.contains(&self.writer)
    }

    /// The number of references to the stream under the handle: one while
    /// the handle is the only one.
    pub fn sharers(&self, store: &Store<W>) -> (n: usize)
        requires
            store@.holds(self@),
        ensures
            n == store@.sharers(self@),
            n >= 1,
    {
        store.streams.holders(&self.writer)
    }

    /// Whether the handle can be cloned: it can be used with `store`, and
    /// the counts of its two cells have room for one more.
    pub fn can_clone(&self, store: &Store<W>) -> (b: bool)
        ensures
            b == (store@.holds(self@) && store@.rights.holders(self@.rights) < usize::MAX
                && store@.sharers(self@) < usize::MAX),
    {
        self.is_open(store) && store.rights.holders(&self.rights) < usize::MAX
            && store.streams.holders(&self.writer) < usize::MAX
    }

    /// Writes at an offset, which a pipe can do at offset zero only: there
    /// it is a plain write. At any other offset it is refused, and nothing
    /// is written.
    pub fn pwritev(&self, store: &mut Store<W>, buf: &Vec<Vec<u8>>, offset: Filesize) -> (res:
        Result<usize, Errno>)
        requires
            old(store)@.holds(self@),
        ensures
            offset != 0 ==> res == Err::<usize, Errno>(Errno::Spipe),
            offset != 0 ==> final(store)@ == old(store)@,
            offset == 0 ==> old(store)@.write_step(self@, contents(buf@), final(store)@, res),
            res matches Ok(n) ==> n <= capacity(contents(buf@)),
            final(store)@.holds(self@),
    {
        if offset != 0 {
            return Err(Errno::Spipe);
        }
        self.write_vectored(store, buf)
    }

    /// Writes the bytes of the buffers in order to the stream, and answers
    /// how many bytes were written. Every handle to the stream goes on from
    /// where this write ends.
    pub fn write_vectored(&self, store: &mut Store<W>, iovs: &Vec<Vec<u8>>) -> (res: Result<
        usize,
        Errno,
    >)
        requires
            old(store)@.holds(self@),
        ensures
            old(store)@.write_step(self@, contents(iovs@), final(store)@, res),
            res matches Ok(n) ==> n <= capacity(contents(iovs@)),
            final(store)@.holds(self@),
    {
        let writer = store.streams.get_mut(&self.writer);
        lift(writer.write_vectored(iovs))
    }
}

impl<W: ByteSink> Handle for WritePipe<W> {
    type Stream = W;

    open spec fn cells(&self) -> PipeView {
        self@
    }

    fn try_clone(&self, store: &mut Store<W>) -> (other: Self) {
        let rights = store.rights.retain(&self.rights);
        let writer = store.streams.retain(&self.writer);
        WritePipe { rights, writer, stream: PhantomData }
    }

    fn get_rights(&self, store: &Store<W>) -> (rights: HandleRights) {
        *store.rights.get(&self.rights)
    }

    fn set_rights(&self, store: &mut Store<W>, rights: HandleRights) {
        let _ = store.rights.replace(&self.rights, rights);
    }
}

impl WritePipe<Cursor> {
    /// A write end over an empty buffer in memory.
    pub fn new_in_memory(store: &mut Store<Cursor>) -> (pipe: Self)
        ensures
            pipe@ == old(store)@.next_pipe(old(store)@.streams.next),
            final(store)@ == old(store)@.shared(final(store)@.stream_of(pipe@)).opened(
                final(store)@.rights_of(pipe@),
            ),
            final(store)@.stream_of(pipe@)@ == (CursorView { data: Seq::<u8>::empty(), pos: 0 }),
            final(store)@.rights_of(pipe@).grants(write_rights(), Set::empty()),
            final(store)@.holds(pipe@),
            final(store)@.sharers(pipe@) == 1,
    {
        Self::new(store, Cursor::new(Vec::new()))
    }

    /// The bytes of the buffer under the pipe as they stand: with a buffer
    /// that was empty at first, all that was written so far. Nothing
    /// changes by looking.
    pub fn as_slice<'a>(&self, store: &'a Store<Cursor>) -> (bytes: &'a [u8])
        requires
            store@.holds(self@),
        ensures
            bytes@ == store@.stream_of(self@)@.data,
    {
        store.streams.get(&self.writer).get_ref().as_slice()
    }
}

} // verus!
