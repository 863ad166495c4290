//! Byte sources and byte sinks: what a pipe reads from and writes to.
//!
//! A vectored read fills a list of buffers in order; a vectored write takes
//! the bytes of a list of buffers in order. A stream may say exactly what
//! its operations do, through `read_admits` and `write_admits`, and a pipe
//! over it then promises the same. A stream that says nothing admits every
//! outcome within the bounds that hold of all streams.

use vstd::prelude::*;
use vstd::seq_lib::lemma_flatten_concat;

verus! {

/// The bytes that each buffer holds.
pub open spec fn contents(bufs: Seq<Vec<u8>>) -> Seq<Seq<u8>> {
    Seq::new(bufs.len(), |i: int| bufs[i]@)
}

/// The number of bytes that the buffers hold together.
pub open spec fn capacity(bufs: Seq<Seq<u8>>) -> nat {
    bufs.flatten().len()
}

/// The number of bytes in the buffers before buffer `i`.
pub open spec fn offset(bufs: Seq<Seq<u8>>, i: int) -> nat {
    bufs.take(i).flatten().len()
}

/// Whether both lists have as many buffers, each as long as its counterpart.
pub open spec fn same_shape(a: Seq<Seq<u8>>, b: Seq<Seq<u8>>) -> bool {
    &&& a.len() == b.len()
    &&& forall|i: int| 0 <= i < a.len() ==> (#[trigger] a[i]).len() == b[i].len()
}

/// The buffers up to and with buffer `i` hold what those before it hold,
/// then the bytes of buffer `i`.
pub proof fn lemma_take_step(bufs: Seq<Seq<u8>>, i: int)
    requires
        0 <= i < bufs.len(),
    ensures
        bufs.take(i + 1).flatten() == bufs.take(i).flatten() + bufs[i],
        offset(bufs, i + 1) == offset(bufs, i) + bufs[i].len(),
{
    assert(bufs.take(i + 1) =~= bufs.take(i).push(bufs[i]));
    bufs.take(i).lemma_flatten_push(bufs[i]);
}

/// Buffer `i` lies within the whole: its bytes are those of the whole from
/// its offset on.
pub proof fn lemma_offset_within(bufs: Seq<Seq<u8>>, i: int)
    requires
        0 <= i < bufs.len(),
    ensures
        offset(bufs, i) + bufs[i].len() <= capacity(bufs),
        forall|j: int|
            0 <= j < bufs[i].len() ==> bufs.flatten()[offset(bufs, i) + j] == #[trigger] bufs[i][j],
{
    let head = bufs.take(i + 1);
    let tail = bufs.skip(i + 1);
    assert(bufs =~= head + tail);
    lemma_flatten_concat(head, tail);
    lemma_take_step(bufs, i);
}

/// All of the buffers are the buffers before the end.
pub proof fn lemma_offset_end(bufs: Seq<Seq<u8>>)
    ensures
        offset(bufs, bufs.len() as int) == capacity(bufs),
        offset(bufs, 0) == 0,
{
    assert(bufs.take(bufs.len() as int) =~= bufs);
    assert(bufs.take(0) =~= Seq::<Seq<u8>>::empty());
}

/// Lists of one shape have their buffers at the same offsets.
pub proof fn lemma_same_shape_offset(a: Seq<Seq<u8>>, b: Seq<Seq<u8>>, i: int)
    requires
        same_shape(a, b),
        0 <= i <= a.len(),
    ensures
        offset(a, i) == offset(b, i),
    decreases i,
{
    if i == 0 {
        assert(a.take(0) =~= Seq::<Seq<u8>>::empty());
        assert(b.take(0) =~= Seq::<Seq<u8>>::empty());
    } else {
        lemma_same_shape_offset(a, b, i - 1);
        lemma_take_step(a, i - 1);
        lemma_take_step(b, i - 1);
    }
}

/// Changing byte `j` of buffer `i` changes the byte of the whole at the
/// buffer's offset plus `j`, and nothing else.
pub proof fn lemma_flatten_update(bufs: Seq<Seq<u8>>, i: int, j: int, byte: u8)
    requires
        0 <= i < bufs.len(),
        0 <= j < bufs[i].len(),
    ensures
        offset(bufs, i) + j < capacity(bufs),
        bufs.update(i, bufs[i].update(j, byte)).flatten() == bufs.flatten().update(
            offset(bufs, i) + j,
            byte,
        ),
{
    let head = bufs.take(i);
    let tail = bufs.skip(i + 1);
    let changed = bufs.update(i, bufs[i].update(j, byte));
    assert(bufs =~= head + seq![bufs[i]] + tail);
    assert(changed =~= head + seq![bufs[i].update(j, byte)] + tail);
    lemma_flatten_concat(head + seq![bufs[i]], tail);
    lemma_flatten_concat(head, seq![bufs[i]]);
    lemma_flatten_concat(head + seq![bufs[i].update(j, byte)], tail);
    lemma_flatten_concat(head, seq![bufs[i].update(j, byte)]);
    seq![bufs[i]].lemma_flatten_singleton();
    seq![bufs[i].update(j, byte)].lemma_flatten_singleton();
    assert(changed.flatten() =~= bufs.flatten().update(offset(bufs, i) + j, byte));
}

/// Something that bytes can be read from.
pub trait ByteSource: Sized {
    /// Whether one vectored read that finds the source as `self` and the
    /// buffers holding `bufs` may leave the source as `next` and the buffers
    /// holding `filled`, and answer `res`.
    open spec fn read_admits(
        &self,
        bufs: Seq<Seq<u8>>,
        next: &Self,
        filled: Seq<Seq<u8>>,
        res: Result<usize, std::io::Error>,
    ) -> bool {
        true
    }

    /// Reads into the buffers in order and answers how many bytes were
    /// read. Zero bytes mean that the source is at its end, or that the
    /// buffers have no room.
    fn read_vectored(&mut self, bufs: &mut Vec<Vec<u8>>) -> (res: Result<usize, std::io::Error>)
        ensures
            same_shape(contents(old(bufs)@), contents(final(bufs)@)),
            res matches Ok(n) ==> n <= capacity(contents(old(bufs)@)),
            old(self).read_admits(
                contents(old(bufs)@),
                final(self),
                contents(final(bufs)@),
                res,
            ),
    ;
}

/// Something that bytes can be written to.
pub trait ByteSink: Sized {
    /// Whether one vectored write of the bytes `bufs` that finds the sink as
    /// `self` may leave it as `next` and answer `res`.
    open spec fn write_admits(
        &self,
        bufs: Seq<Seq<u8>>,
        next: &Self,
        res: Result<usize, std::io::Error>,
    ) -> bool {
        true
    }

    /// Writes the bytes of the buffers in order and answers how many bytes
    /// were written.
    fn write_vectored(&mut self, bufs: &Vec<Vec<u8>>) -> (res: Result<usize, std::io::Error>)
        ensures
            res matches Ok(n) ==> n <= capacity(contents(bufs@)),
            old(self).write_admits(contents(bufs@), final(self), res),
    ;
}

} // verus!
