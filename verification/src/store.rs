//! The state that pipe handles share.
//!
//! A [`Store`] holds the streams that pipes read from or write to, and the
//! rights of the handles, each in a cell with counted references. A handle
//! is two keys into it. Handles made from one another by `try_clone` hold
//! the same two keys: what one of them does to the stream or to the rights
//! is what the others find.

use crate::arena::{Arena, ArenaView};
use crate::errno::Errno;
use crate::rights::HandleRights;
use crate::stream::{ByteSink, ByteSource};
use vstd::prelude::*;

verus! {

/// What a pipe handle is: the cell of its rights and the cell of its stream.
pub struct PipeView {
    pub rights: nat,
    pub stream: nat,
}

/// What a store holds.
pub struct StoreState<S> {
    pub rights: ArenaView<HandleRights>,
    pub streams: ArenaView<S>,
}

impl<S> StoreState<S> {
    /// Both arenas are well formed.
    pub open spec fn wf(self) -> bool {
        self.rights.wf() && self.streams.wf()
    }

    /// Whether both cells of `pipe` are live: the handle can be used.
    pub open spec fn holds(self, pipe: PipeView) -> bool {
        self.rights.contains(pipe.rights) && self.streams.contains(pipe.stream)
    }

    /// The rights that `pipe` reports.
    pub open spec fn rights_of(self, pipe: PipeView) -> HandleRights {
        self.rights.value(pipe.rights)
    }

    /// The stream under `pipe`, as it stands.
    pub open spec fn stream_of(self, pipe: PipeView) -> S {
        self.streams.value(pipe.stream)
    }

    /// The number of references to the stream under `pipe`: the handle
    /// itself, its clones, and whoever else shares the stream.
    pub open spec fn sharers(self, pipe: PipeView) -> nat {
        self.streams.holders(pipe.stream)
    }

    /// The handle that `from_shared` makes over the stream in cell `stream`.
    pub open spec fn next_pipe(self, stream: nat) -> PipeView {
        PipeView { rights: self.rights.next, stream }
    }

    /// The store with a new cell that holds `rights`.
    pub open spec fn opened(self, rights: HandleRights) -> StoreState<S> {
        StoreState { rights: self.rights.share(rights), streams: self.streams }
    }

    /// The store with `stream` in a new cell.
    pub open spec fn shared(self, stream: S) -> StoreState<S> {
        StoreState { rights: self.rights, streams: self.streams.share(stream) }
    }

    /// The store with one handle more on both cells of `pipe`.
    pub open spec fn cloned(self, pipe: PipeView) -> StoreState<S> {
        StoreState {
            rights: self.rights.retain(pipe.rights),
            streams: self.streams.retain(pipe.stream),
        }
    }

    /// The store with one handle less on both cells of `pipe`; a cell goes
    /// with its last handle.
    pub open spec fn closed(self, pipe: PipeView) -> StoreState<S> {
        StoreState {
            rights: self.rights.release(pipe.rights),
            streams: self.streams.release(pipe.stream),
        }
    }

    /// The store with `rights` as the rights of `pipe`.
    pub open spec fn with_rights(self, pipe: PipeView, rights: HandleRights) -> StoreState<S> {
        StoreState { rights: self.rights.update(pipe.rights, rights), streams: self.streams }
    }

    /// The store with `stream` as the stream under `pipe`.
    pub open spec fn with_stream(self, pipe: PipeView, stream: S) -> StoreState<S> {
        StoreState { rights: self.rights, streams: self.streams.update(pipe.stream, stream) }
    }
}

impl<R: ByteSource> StoreState<R> {
    /// Whether a read through `pipe` into buffers that hold `bufs` may lead
    /// from this store to `after`, leave the buffers holding `filled`, and
    /// answer `res`: nothing changes but the stream under `pipe`, which makes
    /// one step that it admits, and its failure is handed on as an I/O
    /// failure.
    pub open spec fn read_step(
        self,
        pipe: PipeView,
        bufs: Seq<Seq<u8>>,
        after: StoreState<R>,
        filled: Seq<Seq<u8>>,
        res: Result<usize, Errno>,
    ) -> bool {
        &&& after == self.with_stream(pipe, after.stream_of(pipe))
        &&& match res {
            Ok(n) => self.stream_of(pipe).read_admits(bufs, &after.stream_of(pipe), filled, Ok(n)),
            Err(Errno::Io(e)) => self.stream_of(pipe).read_admits(
                bufs,
                &after.stream_of(pipe),
                filled,
                Err(e),
            ),
            Err(_) => false,
        }
    }
}

impl<W: ByteSink> StoreState<W> {
    /// Whether a write of the bytes `bufs` through `pipe` may lead from this
    /// store to `after` and answer `res`: nothing changes but the stream
    /// under `pipe`, which makes one step that it admits, and its failure is
    /// handed on as an I/O failure.
    pub open spec fn write_step(
        self,
        pipe: PipeView,
        bufs: Seq<Seq<u8>>,
        after: StoreState<W>,
        res: Result<usize, Errno>,
    ) -> bool {
        &&& after == self.with_stream(pipe, after.stream_of(pipe))
        &&& match res {
            Ok(n) => self.stream_of(pipe).write_admits(bufs, &after.stream_of(pipe), Ok(n)),
            Err(Errno::Io(e)) => self.stream_of(pipe).write_admits(
                bufs,
                &after.stream_of(pipe),
                Err(e),
            ),
            Err(_) => false,
        }
    }
}

/// The streams and the rights that pipe handles refer to.
pub struct Store<S> {
    pub rights: Arena<HandleRights>,
    pub streams: Arena<S>,
}

impl<S> View for Store<S> {
    type V = StoreState<S>;

    open spec fn view(&self) -> StoreState<S> {
        StoreState { rights: self.rights@, streams: self.streams@ }
    }
}

impl<S> Store<S> {
    /// A store without streams or handles.
    pub fn new() -> (store: Store<S>)
        ensures
            store@.rights.cells == Map::<nat, crate::arena::Shared<HandleRights>>::empty(),
            store@.rights.next == 0,
            store@.streams.cells == Map::<nat, crate::arena::Shared<S>>::empty(),
            store@.streams.next == 0,
    {
        Store { rights: Arena::new(), streams: Arena::new() }
    }

    /// What any store's contents satisfy.
    pub proof fn lemma_wf(&self)
        ensures
            self@.wf(),
    {
        self.rights.lemma_wf();
        self.streams.lemma_wf();
    }
}

} // verus!
