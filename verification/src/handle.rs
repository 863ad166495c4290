//! What every handle to a pipe answers, whichever end it is.
//!
//! A guest may ask of a pipe whatever it may ask of a file. A pipe has no
//! position, no size and no entries, so what needs one of them is refused,
//! always with the same error and without a look at the arguments. What is
//! left is the same for both ends: the rights, which clones share, and the
//! making of clones.

use crate::errno::Errno;
use crate::rights::HandleRights;
use crate::store::{PipeView, Store};
use crate::types::{Advice, Fdflags, Filesize, Filestat, Filetype, Oflags};
use vstd::prelude::*;

verus! {

/// The operations of a pipe handle that do not move bytes.
pub trait Handle: Sized {
    /// The kind of stream under the handle.
    type Stream;

    /// The two cells of the store that the handle refers to.
    spec fn cells(&self) -> PipeView;

    /// Another handle to the same stream with the same rights: what is read
    /// or written through one is read or written for the other, and rights
    /// set through one are the rights of the other.
    fn try_clone(&self, store: &mut Store<Self::Stream>) -> (other: Self)
        requires
            old(store)@.holds(self.cells()),
            old(store)@.rights.holders(self.cells().rights) < usize::MAX,
            old(store)@.sharers(self.cells()) < usize::MAX,
        ensures
            other.cells() == self.cells(),
            final(store)@ == old(store)@.cloned(self.cells()),
            final(store)@.holds(other.cells()),
    ;

    /// The rights of the handle.
    fn get_rights(&self, store: &Store<Self::Stream>) -> (rights: HandleRights)
        requires
            store@.holds(self.cells()),
        ensures
            rights == store@.rights_of(self.cells()),
    ;

    /// Replaces the rights of the handle, and so of its clones. Nothing is
    /// asked of the new rights.
    fn set_rights(&self, store: &mut Store<Self::Stream>, rights: HandleRights)
        requires
            old(store)@.holds(self.cells()),
        ensures
            final(store)@ == old(store)@.with_rights(self.cells(), rights),
    ;

    /// The kind of object behind the handle, which for a pipe is not known.
    fn get_file_type(&self) -> (t: Filetype)
        ensures
            t == Filetype::Unknown,
    {
        Filetype::Unknown
    }

    /// Refused: a pipe has no ranges to give advice on.
    fn advise(&self, _advice: Advice, _offset: Filesize, _len: Filesize) -> (res: Result<(), Errno>)
        ensures
            res == Err::<(), Errno>(Errno::Spipe),
    {
        Err(Errno::Spipe)
    }

    /// Refused: a pipe has no size to reserve.
    fn allocate(&self, _offset: Filesize, _len: Filesize) -> (res: Result<(), Errno>)
        ensures
            res == Err::<(), Errno>(Errno::Spipe),
    {
        Err(Errno::Spipe)
    }

    /// Accepted, and without effect.
    fn fdstat_set_flags(&self, _fdflags: Fdflags) -> (res: Result<(), Errno>)
        ensures
            res == Ok::<(), Errno>(()),
    {
        Ok(())
    }

    /// The stat of a pipe: every number zero, the kind unknown.
    fn filestat_get(&self) -> (res: Result<Filestat, Errno>)
        ensures
            res == Ok::<Filestat, Errno>(Filestat::blank()),
    {
        let stat = Filestat {
            dev: 0,
            ino: 0,
            filetype: self.get_file_type(),
            nlink: 0,
            size: 0,
            atim: 0,
            mtim: 0,
            ctim: 0,
        };
        Ok(stat)
    }

    /// Refused: a pipe has no size to set.
    fn filestat_set_size(&self, _st_size: Filesize) -> (res: Result<(), Errno>)
        ensures
            res == Err::<(), Errno>(Errno::Spipe),
    {
        Err(Errno::Spipe)
    }

    /// Refused: a pipe has no position to move.
    fn seek(&self, _offset: std::io::SeekFrom) -> (res: Result<Filesize, Errno>)
        ensures
            res == Err::<Filesize, Errno>(Errno::Spipe),
    {
        Err(Errno::Spipe)
    }

    /// Refused: a pipe is not a directory.
    fn create_directory(&self, _path: &str) -> (res: Result<(), Errno>)
        ensures
            res == Err::<(), Errno>(Errno::Notdir),
    {
        Err(Errno::Notdir)
    }

    /// Refused: a pipe is not a directory.
    fn openat(
        &self,
        _path: &str,
        _read: bool,
        _write: bool,
        _oflags: Oflags,
        _fd_flags: Fdflags,
    ) -> (res: Result<Self, Errno>)
        ensures
            res == Err::<Self, Errno>(Errno::Notdir),
    {
        Err(Errno::Notdir)
    }

    /// Refused: a pipe is not a directory.
    fn link<H>(
        &self,
        _old_path: &str,
        _new_handle: H,
        _new_path: &str,
        _follow: bool,
    ) -> (res: Result<(), Errno>)
        ensures
            res == Err::<(), Errno>(Errno::Notdir),
    {
        Err(Errno::Notdir)
    }

    /// Refused: a pipe is not a directory. The buffer is left as it is.
    fn readlink(&self, _path: &str, buf: &mut Vec<u8>) -> (res: Result<usize, Errno>)
        ensures
            res == Err::<usize, Errno>(Errno::Notdir),
            final(buf)@ == old(buf)@,
    {
        Err(Errno::Notdir)
    }

    /// Refused: a pipe is not a directory.
    fn readlinkat(&self, _path: &str) -> (res: Result<String, Errno>)
        ensures
            res == Err::<String, Errno>(Errno::Notdir),
    {
        Err(Errno::Notdir)
    }

    /// Refused: a pipe is not a directory.
    fn rename<H>(&self, _old_path: &str, _new_handle: H, _new_path: &str) -> (res: Result<
        (),
        Errno,
    >)
        ensures
            res == Err::<(), Errno>(Errno::Notdir),
    {
        Err(Errno::Notdir)
    }

    /// Refused: a pipe is not a directory.
    fn remove_directory(&self, _path: &str) -> (res: Result<(), Errno>)
        ensures
            res == Err::<(), Errno>(Errno::Notdir),
    {
        Err(Errno::Notdir)
    }

    /// Refused: a pipe is not a directory.
    fn symlink(&self, _old_path: &str, _new_path: &str) -> (res: Result<(), Errno>)
        ensures
            res == Err::<(), Errno>(Errno::Notdir),
    {
        Err(Errno::Notdir)
    }

    /// Refused: a pipe is not a directory.
    fn unlink_file(&self, _path: &str) -> (res: Result<(), Errno>)
        ensures
            res == Err::<(), Errno>(Errno::Notdir),
    {
        Err(Errno::Notdir)
    }
}

} // verus!
