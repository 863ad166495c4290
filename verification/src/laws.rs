//! What holds of handles that share a stream or rights.
//!
//! The operations of [`crate::ReadPipe`], [`crate::WritePipe`] and
//! [`crate::Handle`] say what they do to a store in terms of [`StoreState`].
//! The proofs here are about those terms: they hold of every store and of
//! every handle, whatever was done before.

use crate::cursor::Cursor;
use crate::errno::Errno;
use crate::rights::HandleRights;
use crate::store::{PipeView, StoreState};
use crate::stream::{ByteSink, ByteSource};
use vstd::prelude::*;

verus! {

/// A clone is a handle to the same two cells, and both handles can be used.
pub proof fn law_clone_is_usable<S>(store: StoreState<S>, pipe: PipeView)
    requires
        store.wf(),
        store.holds(pipe),
    ensures
        store.cloned(pipe).wf(),
        store.cloned(pipe).holds(pipe),
        store.cloned(pipe).rights_of(pipe) == store.rights_of(pipe),
        store.cloned(pipe).stream_of(pipe) == store.stream_of(pipe),
        store.cloned(pipe).sharers(pipe) == store.sharers(pipe) + 1,
{
}

/// Making a pipe leaves every handle that there is as it was: its cells are
/// live, and hold the stream, the rights and the counts that they held.
pub proof fn law_new_pipes_leave_others<S>(
    store: StoreState<S>,
    pipe: PipeView,
    stream: S,
    rights: HandleRights,
)
    requires
        store.wf(),
        store.holds(pipe),
    ensures
        store.shared(stream).opened(rights).holds(pipe),
        store.shared(stream).opened(rights).rights_of(pipe) == store.rights_of(pipe),
        store.shared(stream).opened(rights).stream_of(pipe) == store.stream_of(pipe),
        store.shared(stream).opened(rights).sharers(pipe) == store.sharers(pipe),
        store.opened(rights).holds(pipe),
        store.opened(rights).rights_of(pipe) == store.rights_of(pipe),
        store.opened(rights).stream_of(pipe) == store.stream_of(pipe),
        store.opened(rights).sharers(pipe) == store.sharers(pipe),
{
}

/// Rights set through one handle are the rights that every handle with the
/// same rights cell reports from then on, its clones among them. Handles
/// with rights of their own report what they reported before.
pub proof fn law_rights_are_shared<S>(
    store: StoreState<S>,
    a: PipeView,
    b: PipeView,
    rights: HandleRights,
)
    requires
        store.holds(a),
        store.holds(b),
    ensures
        store.with_rights(a, rights).holds(b),
        a.rights == b.rights ==> store.with_rights(a, rights).rights_of(b) == rights,
        a.rights != b.rights ==> store.with_rights(a, rights).rights_of(b) == store.rights_of(b),
        store.with_rights(a, rights).stream_of(b) == store.stream_of(b),
        store.with_rights(a, rights).sharers(b) == store.sharers(b),
{
}

/// Rights set through a handle after it was cloned are the rights of the
/// clone too.
pub proof fn law_clone_shares_rights<S>(store: StoreState<S>, pipe: PipeView, rights: HandleRights)
    requires
        store.holds(pipe),
    ensures
        store.cloned(pipe).with_rights(pipe, rights).rights_of(pipe) == rights,
        store.cloned(pipe).with_rights(pipe, rights).holds(pipe),
{
}

/// A read through one handle moves the stream for every handle to it: each
/// of them finds the stream as the read left it, and reads on from there.
/// Handles to other streams find theirs as it was; no handle's rights or
/// count changes.
pub proof fn law_reads_are_shared<R: ByteSource>(
    before: StoreState<R>,
    after: StoreState<R>,
    a: PipeView,
    b: PipeView,
    bufs: Seq<Seq<u8>>,
    filled: Seq<Seq<u8>>,
    res: Result<usize, Errno>,
)
    requires
        before.holds(a),
        before.holds(b),
        before.read_step(a, bufs, after, filled, res),
    ensures
        after.holds(b),
        a.stream == b.stream ==> after.stream_of(b) == after.stream_of(a),
        a.stream == b.stream ==> before.read_step(b, bufs, after, filled, res),
        a.stream != b.stream ==> after.stream_of(b) == before.stream_of(b),
        after.rights_of(b) == before.rights_of(b),
        after.sharers(b) == before.sharers(b),
{
}

/// A write through one handle moves the stream for every handle to it: each
/// of them finds the stream as the write left it, and writes on from there.
/// Handles to other streams find theirs as it was; no handle's rights or
/// count changes.
pub proof fn law_writes_are_shared<W: ByteSink>(
    before: StoreState<W>,
    after: StoreState<W>,
    a: PipeView,
    b: PipeView,
    bufs: Seq<Seq<u8>>,
    res: Result<usize, Errno>,
)
    requires
        before.holds(a),
        before.holds(b),
        before.write_step(a, bufs, after, res),
    ensures
        after.holds(b),
        a.stream == b.stream ==> after.stream_of(b) == after.stream_of(a),
        a.stream == b.stream ==> before.write_step(b, bufs, after, res),
        a.stream != b.stream ==> after.stream_of(b) == before.stream_of(b),
        after.rights_of(b) == before.rights_of(b),
        after.sharers(b) == before.sharers(b),
{
}

/// With a buffer in memory, a read through one handle never fails, and
/// moves the position that every handle to the stream reads from by the
/// number of bytes read: all that were left, or as many as the buffers
/// hold.
pub proof fn law_read_moves_shared_position(
    before: StoreState<Cursor>,
    after: StoreState<Cursor>,
    a: PipeView,
    b: PipeView,
    bufs: Seq<Seq<u8>>,
    filled: Seq<Seq<u8>>,
    res: Result<usize, Errno>,
)
    requires
        before.holds(a),
        before.holds(b),
        a.stream == b.stream,
        before.read_step(a, bufs, after, filled, res),
    ensures
        res matches Ok(n) && n == before.stream_of(b)@.read_count(bufs)
            && after.stream_of(b)@.pos == before.stream_of(b)@.pos + n,
        after.stream_of(b)@.data == before.stream_of(b)@.data,
        filled.flatten() == before.stream_of(b)@.read_bytes(bufs),
{
}

/// With a buffer in memory, a write through one handle never fails, takes
/// all the bytes, and moves the position that every handle to the stream
/// writes at behind them.
pub proof fn law_write_moves_shared_position(
    before: StoreState<Cursor>,
    after: StoreState<Cursor>,
    a: PipeView,
    b: PipeView,
    bufs: Seq<Seq<u8>>,
    res: Result<usize, Errno>,
)
    requires
        before.holds(a),
        before.holds(b),
        a.stream == b.stream,
        before.write_step(a, bufs, after, res),
    ensures
        res matches Ok(n) && n == bufs.flatten().len() && after.stream_of(b)@.pos
            == before.stream_of(b)@.pos + n,
        after.stream_of(b)@ == before.stream_of(b)@.after_write(bufs.flatten()),
{
}

/// Into a buffer that was empty at first, writes append: after a write the
/// buffer holds what it held, then the bytes written.
pub proof fn law_writes_append(
    before: StoreState<Cursor>,
    after: StoreState<Cursor>,
    pipe: PipeView,
    bufs: Seq<Seq<u8>>,
    res: Result<usize, Errno>,
)
    requires
        before.holds(pipe),
        before.stream_of(pipe)@.pos == before.stream_of(pipe)@.data.len(),
        before.write_step(pipe, bufs, after, res),
    ensures
        after.stream_of(pipe)@.data == before.stream_of(pipe)@.data + bufs.flatten(),
        after.stream_of(pipe)@.pos == after.stream_of(pipe)@.data.len(),
{
    let held = before.stream_of(pipe)@.data;
    assert(held.take(held.len() as int) =~= held);
}

/// While a handle has a clone, the stream cannot be taken back through
/// either of them: the stream has two references at least. Once the clone
/// is closed the store is as it was before the clone was made, so a handle
/// that was the last one is the last one again, over the stream as it
/// stands.
pub proof fn law_reclaim_needs_last_handle<S>(store: StoreState<S>, pipe: PipeView)
    requires
        store.wf(),
        store.holds(pipe),
    ensures
        store.cloned(pipe).sharers(pipe) >= 2,
        store.cloned(pipe).closed(pipe) == store,
{
    let back = store.cloned(pipe).closed(pipe);
    assert(back.rights.cells =~= store.rights.cells);
    assert(back.streams.cells =~= store.streams.cells);
}

/// Closing a handle that has a clone leaves the clone usable, with the
/// stream and the rights as they were.
pub proof fn law_close_keeps_clones<S>(store: StoreState<S>, pipe: PipeView)
    requires
        store.wf(),
        store.holds(pipe),
        store.sharers(pipe) >= 2,
        store.rights.holders(pipe.rights) >= 2,
    ensures
        store.closed(pipe).wf(),
        store.closed(pipe).holds(pipe),
        store.closed(pipe).stream_of(pipe) == store.stream_of(pipe),
        store.closed(pipe).rights_of(pipe) == store.rights_of(pipe),
        store.closed(pipe).sharers(pipe) == store.sharers(pipe) - 1,
{
}

} // verus!
