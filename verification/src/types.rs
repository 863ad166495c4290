//! The plain values that handle operations take and give.

use vstd::prelude::*;

verus! {

/// `std::io::SeekFrom`, the target of a seek. A pipe refuses every seek, so
/// nothing is read from a value of it.
#[verifier::external_type_specification]
#[verifier::external_body]
pub struct ExSeekFrom(std::io::SeekFrom);

/// A size or an offset in bytes.
pub type Filesize = u64;

/// The kind of object behind a handle.
#[derive(Clone, Copy, Debug, PartialEq, Eq, Structural)]
pub enum Filetype {
    Unknown,
    BlockDevice,
    CharacterDevice,
    Directory,
    RegularFile,
    SocketDgram,
    SocketStream,
    SymbolicLink,
}

/// What `filestat_get` reports of an object.
#[derive(Clone, Copy, Debug, PartialEq, Eq, Structural)]
pub struct Filestat {
    pub dev: u64,
    pub ino: u64,
    pub filetype: Filetype,
    pub nlink: u64,
    pub size: Filesize,
    pub atim: u64,
    pub mtim: u64,
    pub ctim: u64,
}

impl Filestat {
    /// The stat of an object without metadata: every number zero, the kind
    /// unknown.
    pub open spec fn blank() -> Filestat {
        Filestat {
            dev: 0,
            ino: 0,
            filetype: Filetype::Unknown,
            nlink: 0,
            size: 0,
            atim: 0,
            mtim: 0,
            ctim: 0,
        }
    }
}

/// A hint on how a range of a file will be used.
#[derive(Clone, Copy, Debug, PartialEq, Eq, Structural)]
pub enum Advice {
    Normal,
    Sequential,
    Random,
    Willneed,
    Dontneed,
    Noreuse,
}

/// Flags of an open descriptor, as a bit set.
#[derive(Clone, Copy, Debug, PartialEq, Eq, Structural)]
pub struct Fdflags {
    pub bits: u16,
}

/// Flags of an open request, as a bit set.
#[derive(Clone, Copy, Debug, PartialEq, Eq, Structural)]
pub struct Oflags {
    pub bits: u16,
}

} // verus!
