//! Rights: what a handle may be used for, and what it may pass on.
//!
//! A handle stores its rights and reports them. Whether an operation is
//! allowed is decided by whoever dispatches it, never here.

use vstd::prelude::*;

verus! {

/// One capability.
#[derive(Clone, Copy, Debug, PartialEq, Eq, Structural)]
pub enum Right {
    FdDatasync,
    FdRead,
    FdSeek,
    FdFdstatSetFlags,
    FdSync,
    FdTell,
    FdWrite,
    FdAdvise,
    FdAllocate,
    PathCreateDirectory,
    PathCreateFile,
    PathLinkSource,
    PathLinkTarget,
    PathOpen,
    FdReaddir,
    PathReadlink,
    PathRenameSource,
    PathRenameTarget,
    PathFilestatGet,
    PathFilestatSetSize,
    PathFilestatSetTimes,
    FdFilestatGet,
    FdFilestatSetSize,
    FdFilestatSetTimes,
    PathSymlink,
    PathRemoveDirectory,
    PathUnlinkFile,
    PollFdReadwrite,
    SockShutdown,
}

impl Right {
    /// The position of this right's bit in a [`Rights`] value.
    pub open spec fn index(self) -> u64 {
        match self {
            Right::FdDatasync => 0,
            Right::FdRead => 1,
            Right::FdSeek => 2,
            Right::FdFdstatSetFlags => 3,
            Right::FdSync => 4,
            Right::FdTell => 5,
            Right::FdWrite => 6,
            Right::FdAdvise => 7,
            Right::FdAllocate => 8,
            Right::PathCreateDirectory => 9,
            Right::PathCreateFile => 10,
            Right::PathLinkSource => 11,
            Right::PathLinkTarget => 12,
            Right::PathOpen => 13,
            Right::FdReaddir => 14,
            Right::PathReadlink => 15,
            Right::PathRenameSource => 16,
            Right::PathRenameTarget => 17,
            Right::PathFilestatGet => 18,
            Right::PathFilestatSetSize => 19,
            Right::PathFilestatSetTimes => 20,
            Right::FdFilestatGet => 21,
            Right::FdFilestatSetSize => 22,
            Right::FdFilestatSetTimes => 23,
            Right::PathSymlink => 24,
            Right::PathRemoveDirectory => 25,
            Right::PathUnlinkFile => 26,
            Right::PollFdReadwrite => 27,
            Right::SockShutdown => 28,
        }
    }

    /// The position of this right's bit.
    pub fn position(self) -> (i: u64)
        ensures
            i == self.index(),
            i < 29,
    {
        match self {
            Right::FdDatasync => 0,
            Right::FdRead => 1,
            Right::FdSeek => 2,
            Right::FdFdstatSetFlags => 3,
            Right::FdSync => 4,
            Right::FdTell => 5,
            Right::FdWrite => 6,
            Right::FdAdvise => 7,
            Right::FdAllocate => 8,
            Right::PathCreateDirectory => 9,
            Right::PathCreateFile => 10,
            Right::PathLinkSource => 11,
            Right::PathLinkTarget => 12,
            Right::PathOpen => 13,
            Right::FdReaddir => 14,
            Right::PathReadlink => 15,
            Right::PathRenameSource => 16,
            Right::PathRenameTarget => 17,
            Right::PathFilestatGet => 18,
            Right::PathFilestatSetSize => 19,
            Right::PathFilestatSetTimes => 20,
            Right::FdFilestatGet => 21,
            Right::FdFilestatSetSize => 22,
            Right::FdFilestatSetTimes => 23,
            Right::PathSymlink => 24,
            Right::PathRemoveDirectory => 25,
            Right::PathUnlinkFile => 26,
            Right::PollFdReadwrite => 27,
            Right::SockShutdown => 28,
        }
    }
}

/// No two rights share a bit.
pub proof fn lemma_index_injective(a: Right, b: Right)
    ensures
        a.index() < 64,
        a.index() == b.index() <==> a == b,
{
}

/// The right at a bit position.
pub open spec fn right_at(i: u64) -> Right {
    if i == 0 {
        Right::FdDatasync
    } else if i == 1 {
        Right::FdRead
    } else if i == 2 {
        Right::FdSeek
    } else if i == 3 {
        Right::FdFdstatSetFlags
    } else if i == 4 {
        Right::FdSync
    } else if i == 5 {
        Right::FdTell
    } else if i == 6 {
        Right::FdWrite
    } else if i == 7 {
        Right::FdAdvise
    } else if i == 8 {
        Right::FdAllocate
    } else if i == 9 {
        Right::PathCreateDirectory
    } else if i == 10 {
        Right::PathCreateFile
    } else if i == 11 {
        Right::PathLinkSource
    } else if i == 12 {
        Right::PathLinkTarget
    } else if i == 13 {
        Right::PathOpen
    } else if i == 14 {
        Right::FdReaddir
    } else if i == 15 {
        Right::PathReadlink
    } else if i == 16 {
        Right::PathRenameSource
    } else if i == 17 {
        Right::PathRenameTarget
    } else if i == 18 {
        Right::PathFilestatGet
    } else if i == 19 {
        Right::PathFilestatSetSize
    } else if i == 20 {
        Right::PathFilestatSetTimes
    } else if i == 21 {
        Right::FdFilestatGet
    } else if i == 22 {
        Right::FdFilestatSetSize
    } else if i == 23 {
        Right::FdFilestatSetTimes
    } else if i == 24 {
        Right::PathSymlink
    } else if i == 25 {
        Right::PathRemoveDirectory
    } else if i == 26 {
        Right::PathUnlinkFile
    } else if i == 27 {
        Right::PollFdReadwrite
    } else {
        Right::SockShutdown
    }
}

/// Every bit position below the number of rights is the position of a right.
pub proof fn lemma_right_at(i: u64)
    requires
        i < 29,
    ensures
        right_at(i).index() == i,
{
}

/// The word with every bit below bit `k` set and no other.
pub open spec fn low_bits(k: u64) -> u64 {
    !(0xffff_ffff_ffff_ffffu64 << k)
}

/// Two words that agree at every bit below `k` agree below bit `k`.
proof fn lemma_agree_below(a: u64, b: u64, k: u64)
    requires
        k <= 29,
        forall|i: u64| i < k ==> (a & (1u64 << i) != 0) == (b & (1u64 << i) != 0),
    ensures
        a & low_bits(k) == b & low_bits(k),
    decreases k,
{
    if k == 0 {
        assert(a & low_bits(0) == 0 && b & low_bits(0) == 0) by (bit_vector);
    } else {
        let j = (k - 1) as u64;
        lemma_agree_below(a, b, j);
        assert(a & low_bits(k) == b & low_bits(k)) by (bit_vector)
            requires
                j < 63,
                k == j + 1,
                a & low_bits(j) == b & low_bits(j),
                (a & (1u64 << j) != 0) == (b & (1u64 << j) != 0),
        ;
    }
}

/// A set of rights, kept as one bit per right.
#[derive(Clone, Copy, Debug, PartialEq, Eq, Structural)]
pub struct Rights {
    bits: u64,
}

impl View for Rights {
    type V = Set<Right>;

    /// The rights whose bit is set.
    closed spec fn view(&self) -> Set<Right> {
        Set::new(|r: Right| self.bits & (1u64 << r.index()) != 0)
    }
}

impl Rights {
    /// The bits, one per right, at the right's position.
    pub closed spec fn spec_bits(self) -> u64 {
        self.bits
    }

    /// No bit is set but those of rights. It holds of every value that the
    /// functions of this type make.
    pub closed spec fn wf(self) -> bool {
        self.bits < 0x2000_0000
    }

    /// A set of rights is kept in one way only: well-formed values that hold
    /// the same rights are the same value.
    pub proof fn lemma_same_rights(self, other: Rights)
        requires
            self.wf(),
            other.wf(),
            self@ == other@,
        ensures
            self == other,
    {
        let a = self.bits;
        let b = other.bits;
        assert forall|i: u64| i < 29 implies (a & (1u64 << i) != 0) == (b & (1u64 << i) != 0) by {
            let r = right_at(i);
            lemma_right_at(i);
            assert(r.index() == i);
            assert(self@.contains(r) == (a & (1u64 << r.index()) != 0));
            assert(other@.contains(r) == (b & (1u64 << r.index()) != 0));
        }
        lemma_agree_below(a, b, 29);
        assert(a == b) by (bit_vector)
            requires
                a < 0x2000_0000,
                b < 0x2000_0000,
                a & low_bits(29) == b & low_bits(29),
        ;
    }

    /// The empty set.
    pub fn empty() -> (r: Rights)
        ensures
            r@ == Set::<Right>::empty(),
            r.spec_bits() == 0,
            r.wf(),
    {
        let r = Rights { bits: 0 };
        proof {
            assert forall|x: Right| !r@.contains(x) by {
                let i = x.index();
                assert(0u64 & (1u64 << i) == 0) by (bit_vector);
            }
            assert(r@ =~= Set::<Right>::empty());
        }
        r
    }

    /// The set that holds `right` and nothing else.
    pub fn only(right: Right) -> (r: Rights)
        ensures
            r@ == set![right],
            r.wf(),
    {
        let i = right.position();
        let r = Rights { bits: 1u64 << i };
        proof {
            assert(i < 29 ==> (1u64 << i) < 0x2000_0000) by (bit_vector);
            assert forall|x: Right| r@.contains(x) <==> x == right by {
                let j = x.index();
                lemma_index_injective(x, right);
                assert(i < 64 && j < 64 ==> (((1u64 << i) & (1u64 << j) != 0) <==> i == j))
                    by (bit_vector);
            }
            assert(r@ =~= set![right]);
        }
        r
    }

    /// The rights that are in `self` or in `other`.
    pub fn union(self, other: Rights) -> (r: Rights)
        ensures
            r@ == self@.union(other@),
            r.spec_bits() == self.spec_bits() | other.spec_bits(),
            self.wf() && other.wf() ==> r.wf(),
    {
        let r = Rights { bits: self.bits | other.bits };
        proof {
            let a = self.bits;
            let b = other.bits;
            assert(a < 0x2000_0000 && b < 0x2000_0000 ==> (a | b) < 0x2000_0000) by (bit_vector);
            assert forall|x: Right|
                r@.contains(x) <==> (self@.contains(x) || other@.contains(x)) by {
                let m = 1u64 << x.index();
                assert(((a | b) & m != 0) <==> (a & m != 0 || b & m != 0)) by (bit_vector);
            }
            assert(r@ =~= self@.union(other@));
        }
        r
    }

    /// The rights of `self`, and `right`.
    pub fn with(self, right: Right) -> (r: Rights)
        ensures
            r@ == self@.insert(right),
            self.wf() ==> r.wf(),
    {
        let r = self.union(Rights::only(right));
        assert(r@ =~= self@.insert(right));
        r
    }

    /// Whether `right` is in the set.
    pub fn has(&self, right: Right) -> (b: bool)
        ensures
            b == self@.contains(right),
    {
        let i = right.position();
        self.bits & (1u64 << i) != 0
    }

    /// Whether the set holds no right.
    pub fn is_empty(&self) -> (b: bool)
        ensures
            b == (self.spec_bits() == 0),
            b ==> self@ == Set::<Right>::empty(),
            self.wf() && self@ == Set::<Right>::empty() ==> b,
    {
        proof {
            let none = Rights { bits: 0 };
            assert forall|x: Right| !none@.contains(x) by {
                let i = x.index();
                assert(0u64 & (1u64 << i) == 0) by (bit_vector);
            }
            assert(none@ =~= Set::<Right>::empty());
            if self.wf() && self@ == Set::<Right>::empty() {
                self.lemma_same_rights(none);
            }
        }
        self.bits == 0
    }

    /// The bits, one per right, at the right's position.
    pub fn bits(&self) -> (b: u64)
        ensures
            b == self.spec_bits(),
            forall|right: Right| self@.contains(right) <==> b & (1u64 << right.index()) != 0,
    {
        self.bits
    }
}

/// The rights of a handle: those it holds, and those that a handle opened
/// through it may be given.
#[derive(Clone, Copy, Debug, PartialEq, Eq, Structural)]
pub struct HandleRights {
    pub base: Rights,
    pub inheriting: Rights,
}

impl HandleRights {
    /// Whether the value holds exactly the rights `base` and passes on
    /// exactly the rights `inheriting`.
    pub open spec fn grants(self, base: Set<Right>, inheriting: Set<Right>) -> bool {
        &&& self.base.wf()
        &&& self.base@ == base
        &&& self.inheriting.wf()
        &&& self.inheriting@ == inheriting
    }

    /// Rights values that grant the same are the same value.
    pub proof fn lemma_grants_one(
        self,
        other: HandleRights,
        base: Set<Right>,
        inheriting: Set<Right>,
    )
        requires
            self.grants(base, inheriting),
            other.grants(base, inheriting),
        ensures
            self == other,
    {
        self.base.lemma_same_rights(other.base);
        self.inheriting.lemma_same_rights(other.inheriting);
    }

    /// The rights value with the given two sets.
    pub fn new(base: Rights, inheriting: Rights) -> (r: HandleRights)
        ensures
            r == (HandleRights { base, inheriting }),
    {
        HandleRights { base, inheriting }
    }

    /// The rights value that holds `base` and passes nothing on.
    pub fn from_base(base: Rights) -> (r: HandleRights)
        ensures
            r.base == base,
            r.inheriting@ == Set::<Right>::empty(),
            r.inheriting.wf(),
    {
        HandleRights { base, inheriting: Rights::empty() }
    }

    /// The rights value that holds nothing and passes nothing on.
    pub fn empty() -> (r: HandleRights)
        ensures
            r.base@ == Set::<Right>::empty(),
            r.inheriting@ == Set::<Right>::empty(),
            r.base.wf(),
            r.inheriting.wf(),
    {
        HandleRights { base: Rights::empty(), inheriting: Rights::empty() }
    }

    /// The rights that the handle holds.
    pub fn base(&self) -> (r: Rights)
        ensures
            r == self.base,
    {
        self.base
    }

    /// The rights that the handle may pass on.
    pub fn inheriting(&self) -> (r: Rights)
        ensures
            r == self.inheriting,
    {
        self.inheriting
    }
}

} // verus!
