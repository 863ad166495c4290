//! An in-memory stream: a byte buffer and a position in it.

use crate::stream::{
    capacity, contents, lemma_flatten_update, lemma_offset_end, lemma_offset_within,
    lemma_same_shape_offset, lemma_take_step, offset, same_shape, ByteSink, ByteSource,
};
use vstd::prelude::*;

verus! {

/// What a cursor holds: its bytes, and how many of them lie behind it.
pub struct CursorView {
    pub data: Seq<u8>,
    pub pos: nat,
}

impl CursorView {
    /// The position lies within the bytes or at their end.
    pub open spec fn wf(self) -> bool {
        self.pos <= self.data.len()
    }

    /// The bytes from the position on: those that reads have not reached.
    pub open spec fn pending(self) -> Seq<u8> {
        self.data.skip(self.pos as int)
    }

    /// How many bytes a read into `bufs` takes: all that are pending, or as
    /// many as the buffers have room for.
    pub open spec fn read_count(self, bufs: Seq<Seq<u8>>) -> nat {
        if self.pending().len() <= capacity(bufs) {
            self.pending().len()
        } else {
            capacity(bufs)
        }
    }

    /// The cursor after a read into `bufs`: the same bytes, the position
    /// behind those that were read.
    pub open spec fn after_read(self, bufs: Seq<Seq<u8>>) -> CursorView {
        CursorView { data: self.data, pos: self.pos + self.read_count(bufs) }
    }

    /// What the buffers hold after a read into `bufs`, taken together: the
    /// bytes that were read, then what the buffers held past them.
    pub open spec fn read_bytes(self, bufs: Seq<Seq<u8>>) -> Seq<u8> {
        let n = self.read_count(bufs) as int;
        self.pending().take(n) + bufs.flatten().skip(n)
    }

    /// The cursor after a write of `bytes`: they replace what was at the
    /// position and lengthen the buffer where they reach past its end, and
    /// the position lies behind them.
    pub open spec fn after_write(self, bytes: Seq<u8>) -> CursorView {
        let end = self.pos + bytes.len();
        CursorView {
            data: if end >= self.data.len() {
                self.data.take(self.pos as int) + bytes
            } else {
                self.data.take(self.pos as int) + bytes + self.data.skip(end as int)
            },
            pos: end,
        }
    }
}

/// A byte buffer that is read or written from a position onward. The
/// position starts at zero and only moves forward, by the bytes read or
/// written.
#[derive(Debug)]
pub struct Cursor {
    data: Vec<u8>,
    pos: usize,
}

impl View for Cursor {
    type V = CursorView;

    /// The bytes, and the position, which counts as the end of the bytes
    /// should it ever lie past them.
    closed spec fn view(&self) -> CursorView {
        CursorView {
            data: self.data@,
            pos: if self.pos <= self.data@.len() {
                self.pos as nat
            } else {
                self.data@.len()
            },
        }
    }
}

impl Cursor {
    /// The position of a cursor never lies past its bytes.
    pub proof fn lemma_wf(&self)
        ensures
            self@.wf(),
    {
    }

    /// A cursor at the start of `data`.
    pub fn new(data: Vec<u8>) -> (cursor: Cursor)
        ensures
            cursor@ == (CursorView { data: data@, pos: 0 }),
    {
        Cursor { data, pos: 0 }
    }

    /// The buffer, whatever the position.
    pub fn get_ref(&self) -> (data: &Vec<u8>)
        ensures
            data@ == self@.data,
    {
        &self.data
    }

    /// The buffer, giving up the position.
    pub fn into_inner(self) -> (data: Vec<u8>)
        ensures
            data@ == self@.data,
    {
        self.data
    }

    /// The number of bytes that lie behind the cursor.
    pub fn position(&self) -> (pos: usize)
        ensures
            pos == self@.pos,
            self@.wf(),
    {
        if self.pos <= self.data.len() {
            self.pos
        } else {
            self.data.len()
        }
    }
}

impl ByteSource for Cursor {
    open spec fn read_admits(
        &self,
        bufs: Seq<Seq<u8>>,
        next: &Self,
        filled: Seq<Seq<u8>>,
        res: Result<usize, std::io::Error>,
    ) -> bool {
        &&& self@.wf()
        &&& next@ == self@.after_read(bufs)
        &&& (res matches Ok(n) && n == self@.read_count(bufs))
        &&& same_shape(bufs, filled)
        &&& filled.flatten() == self@.read_bytes(bufs)
    }

    fn read_vectored(&mut self, bufs: &mut Vec<Vec<u8>>) -> (res: Result<usize, std::io::Error>) {
        let ghost start = contents(bufs@);
        let ghost before = self@;
        let mut count: usize = 0;
        let mut i: usize = 0;
        proof {
            lemma_offset_end(start);
            assert(before.pending().take(0) + start.flatten().skip(0) =~= start.flatten());
        }
        while i < bufs.len()
            invariant
                i <= bufs.len(),
                start == contents(old(bufs)@),
                before == old(self)@,
                same_shape(start, contents(bufs@)),
                before.wf(),
                self@.data == before.data,
                self@.pos == before.pos + count,
                count == offset(start, i as int),
                count <= before.pending().len(),
                contents(bufs@).flatten() == before.pending().take(count as int)
                    + start.flatten().skip(count as int),
            decreases bufs.len() - i,
        {
            let len = bufs[i].len();
            let mut j: usize = 0;
            while j < len
                invariant
                    i < bufs.len(),
                    j <= len,
                    len == bufs[i as int]@.len(),
                    start == contents(old(bufs)@),
                    before == old(self)@,
                    same_shape(start, contents(bufs@)),
                    before.wf(),
                    self@.data == before.data,
                    self@.pos == before.pos + count,
                    count == offset(start, i as int) + j,
                    count <= before.pending().len(),
                    contents(bufs@).flatten() == before.pending().take(count as int)
                        + start.flatten().skip(count as int),
                decreases len - j,
            {
                if self.pos >= self.data.len() {
                    proof {
                        lemma_offset_within(start, i as int);
                    }
                    return Ok(count);
                }
                let byte = self.data[self.pos];
                let ghost prior = contents(bufs@);
                bufs[i][j] = byte;
                proof {
                    let now = contents(bufs@);
                    assert(now =~= prior.update(i as int, prior[i as int].update(j as int, byte)));
                    lemma_flatten_update(prior, i as int, j as int, byte);
                    lemma_same_shape_offset(start, prior, i as int);
                    lemma_offset_within(start, i as int);
                    assert(now.flatten() =~= before.pending().take(count + 1)
                        + start.flatten().skip(count + 1));
                }
                self.pos = self.pos + 1;
                count = count + 1;
                j = j + 1;
            }
            proof {
                lemma_take_step(start, i as int);
            }
            i = i + 1;
        }
        proof {
            lemma_offset_end(start);
        }
        Ok(count)
    }
}

impl ByteSink for Cursor {
    open spec fn write_admits(
        &self,
        bufs: Seq<Seq<u8>>,
        next: &Self,
        res: Result<usize, std::io::Error>,
    ) -> bool {
        &&& self@.wf()
        &&& next@ == self@.after_write(bufs.flatten())
        &&& next@.wf()
        &&& (res matches Ok(n) && n == capacity(bufs))
    }

    fn write_vectored(&mut self, bufs: &Vec<Vec<u8>>) -> (res: Result<usize, std::io::Error>) {
        let ghost all = contents(bufs@);
        let ghost before = self@;
        let mut count: usize = 0;
        let mut i: usize = 0;
        proof {
            lemma_offset_end(all);
            assert(all.take(0) =~= Seq::<Seq<u8>>::empty());
            assert(before.after_write(all.take(0).flatten()).data =~= before.data);
        }
        while i < bufs.len()
            invariant
                i <= bufs.len(),
                all == contents(bufs@),
                before == old(self)@,
                before.wf(),
                count == offset(all, i as int),
                self@ == before.after_write(all.take(i as int).flatten()),
            decreases bufs.len() - i,
        {
            let buf = &bufs[i];
            let len = buf.len();
            let mut j: usize = 0;
            proof {
                assert(all[i as int].take(0) =~= Seq::<u8>::empty());
                assert(all.take(i as int).flatten() + all[i as int].take(0) =~= all.take(
                    i as int,
                ).flatten());
            }
            while j < len
                invariant
                    i < bufs.len(),
                    j <= len,
                    buf@ == all[i as int],
                    len == all[i as int].len(),
                        all == contents(bufs@),
                    before == old(self)@,
                    before.wf(),
                    count == offset(all, i as int) + j,
                    self@ == before.after_write(
                        all.take(i as int).flatten() + all[i as int].take(j as int),
                    ),
                decreases len - j,
            {
                let byte = buf[j];
                let at = self.pos;
                let ghost written = all.take(i as int).flatten() + all[i as int].take(j as int);
                let ghost held = self.data@;
                if at < self.data.len() {
                    self.data[at] = byte;
                    self.pos = at + 1;
                } else {
                    self.data.push(byte);
                    self.pos = self.data.len();
                }
                proof {
                    assert(all[i as int].take(j + 1) =~= all[i as int].take(j as int).push(byte));
                    assert(all.take(i as int).flatten() + all[i as int].take(j + 1)
                        =~= written.push(byte));
                    assert(held == before.after_write(written).data);
                    assert(self.data@ =~= before.after_write(written.push(byte)).data);
                }
                count = count + 1;
                j = j + 1;
            }
            proof {
                assert(all[i as int].take(len as int) =~= all[i as int]);
                lemma_take_step(all, i as int);
            }
            i = i + 1;
        }
        proof {
            assert(all.take(bufs.len() as int) =~= all);
            lemma_offset_end(all);
        }
        Ok(count)
    }
}

} // verus!
