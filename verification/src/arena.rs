//! Shared cells: values reached through counted references.
//!
//! An [`Arena`] holds values that several parties refer to by [`Key`]. Each
//! cell counts the keys that refer to it. A value can be read and changed
//! through any of them, and taken back out through the last one only.
//! Whoever makes a key by [`Arena::share`] or [`Arena::retain`] gives it back
//! by [`Arena::release`] or [`Arena::try_unwrap`]: a key that is merely
//! dropped keeps its cell alive.

use vstd::prelude::*;

verus! {

/// A value and the number of keys that refer to it.
pub struct Shared<T> {
    pub value: T,
    pub holders: nat,
}

/// What an arena holds: its live cells by key, and the key that the next
/// new cell gets.
pub struct ArenaView<T> {
    pub cells: Map<nat, Shared<T>>,
    pub next: nat,
}

impl<T> ArenaView<T> {
    /// Every live cell has a holder, and no key at or past `next` is live.
    pub open spec fn wf(self) -> bool {
        forall|id: nat| #[trigger]
            self.cells.contains_key(id) ==> id < self.next && self.cells[id].holders >= 1
    }

    /// Whether `id` is the key of a live cell.
    pub open spec fn contains(self, id: nat) -> bool {
        self.cells.contains_key(id)
    }

    /// The value in cell `id`.
    pub open spec fn value(self, id: nat) -> T {
        self.cells[id].value
    }

    /// The number of keys that refer to cell `id`.
    pub open spec fn holders(self, id: nat) -> nat {
        self.cells[id].holders
    }

    /// The arena with `value` in a new cell that has one holder.
    pub open spec fn share(self, value: T) -> ArenaView<T> {
        ArenaView {
            cells: self.cells.insert(self.next, Shared { value, holders: 1 }),
            next: self.next + 1,
        }
    }

    /// The arena with one holder more on cell `id`.
    pub open spec fn retain(self, id: nat) -> ArenaView<T> {
        ArenaView {
            cells: self.cells.insert(
                id,
                Shared { value: self.cells[id].value, holders: self.cells[id].holders + 1 },
            ),
            next: self.next,
        }
    }

    /// The arena with one holder less on cell `id`; the cell is gone when
    /// that was its last.
    pub open spec fn release(self, id: nat) -> ArenaView<T> {
        if self.cells[id].holders <= 1 {
            ArenaView { cells: self.cells.remove(id), next: self.next }
        } else {
            ArenaView {
                cells: self.cells.insert(
                    id,
                    Shared {
                        value: self.cells[id].value,
                        holders: (self.cells[id].holders - 1) as nat,
                    },
                ),
                next: self.next,
            }
        }
    }

    /// The arena with `value` in cell `id`, held as before.
    pub open spec fn update(self, id: nat, value: T) -> ArenaView<T> {
        ArenaView {
            cells: self.cells.insert(id, Shared { value, holders: self.cells[id].holders }),
            next: self.next,
        }
    }
}

/// A counted reference to a cell of an arena.
///
/// A key cannot be copied: a second reference to the same cell is made by
/// [`Arena::retain`], which counts it.
#[derive(Debug)]
pub struct Key {
    index: usize,
}

impl View for Key {
    type V = nat;

    /// The number of the cell that the key refers to.
    closed spec fn view(&self) -> nat {
        self.index as nat
    }
}

enum Slot<T> {
    Vacant,
    Held { value: T, holders: usize },
}

/// Cells with counted references.
pub struct Arena<T> {
    slots: Vec<Slot<T>>,
}

impl<T> View for Arena<T> {
    type V = ArenaView<T>;

    closed spec fn view(&self) -> ArenaView<T> {
        ArenaView {
            cells: Map::new(
                |id: nat|
                    id < self.slots@.len() && self.slots@[id as int] is Held
                        && self.slots@[id as int]->holders >= 1,
                |id: nat|
                    Shared {
                        value: self.slots@[id as int]->value,
                        holders: self.slots@[id as int]->holders as nat,
                    },
            ),
            next: self.slots@.len(),
        }
    }
}

impl<T> Arena<T> {
    /// What any arena's contents satisfy.
    pub proof fn lemma_wf(&self)
        ensures
            self@.wf(),
    {
    }

    /// An arena without cells.
    pub fn new() -> (arena: Arena<T>)
        ensures
            arena@.cells == Map::<nat, Shared<T>>::empty(),
            arena@.next == 0,
    {
        let arena = Arena { slots: Vec::new() };
        assert(arena@.cells =~= Map::<nat, Shared<T>>::empty());
        arena
    }

    /// Puts `value` in a new cell and hands back the one key to it.
    pub fn share(&mut self, value: T) -> (key: Key)
        ensures
            key@ == old(self)@.next,
            !old(self)@.contains(key@),
            final(self)@ == old(self)@.share(value),
    {
        let index = self.slots.len();
        self.slots.push(Slot::Held { value, holders: 1 });
        let key = Key { index };
        assert(self@.cells =~= old(self)@.share(value).cells);
        key
    }

    /// Whether `key` refers to a live cell.
    pub fn contains(&self, key: &Key) -> (b: bool)
        ensures
            b == self@.contains(key@),
    {
        if key.index < self.slots.len() {
            match &self.slots[key.index] {
                Slot::Held { holders, .. } => *holders >= 1,
                Slot::Vacant => false,
            }
        } else {
            false
        }
    }

    /// The number of keys that refer to the cell of `key`.
    pub fn holders(&self, key: &Key) -> (n: usize)
        requires
            self@.contains(key@),
        ensures
            n == self@.holders(key@),
            n >= 1,
    {
        match &self.slots[key.index] {
            Slot::Held { holders, .. } => *holders,
            Slot::Vacant => vstd::pervasive::unreached(),
        }
    }

    /// One more key to the cell of `key`.
    pub fn retain(&mut self, key: &Key) -> (other: Key)
        requires
            old(self)@.contains(key@),
            old(self)@.holders(key@) < usize::MAX,
        ensures
            other@ == key@,
            final(self)@ == old(self)@.retain(key@),
    {
        match &mut self.slots[key.index] {
            Slot::Held { holders, .. } => {
                *holders = *holders + 1;
            },
            Slot::Vacant => {},
        }
        assert(self@.cells =~= old(self)@.retain(key@).cells);
        Key { index: key.index }
    }

    /// Gives a key back. When it was the last key to its cell, the cell is
    /// gone and its value is handed out.
    pub fn release(&mut self, key: Key) -> (last: Option<T>)
        requires
            old(self)@.contains(key@),
        ensures
            final(self)@ == old(self)@.release(key@),
            last == if old(self)@.holders(key@) == 1 {
                Some(old(self)@.value(key@))
            } else {
                None
            },
    {
        let mut slot = Slot::Vacant;
        core::mem::swap(&mut slot, &mut self.slots[key.index]);
        match slot {
            Slot::Held { value, holders } => {
                if holders == 1 {
                    assert(self@.cells =~= old(self)@.release(key@).cells);
                    Some(value)
                } else {
                    let mut rest = Slot::Held { value, holders: holders - 1 };
                    core::mem::swap(&mut rest, &mut self.slots[key.index]);
                    assert(self@.cells =~= old(self)@.release(key@).cells);
                    None
                }
            },
            Slot::Vacant => vstd::pervasive::unreached(),
        }
    }

    /// Takes the value out through its last key. While other keys refer to
    /// the cell, nothing changes and the key comes back.
    pub fn try_unwrap(&mut self, key: Key) -> (res: Result<T, Key>)
        requires
            old(self)@.contains(key@),
        ensures
            match res {
                Ok(value) => {
                    &&& old(self)@.holders(key@) == 1
                    &&& value == old(self)@.value(key@)
                    &&& final(self)@ == old(self)@.release(key@)
                },
                Err(back) => {
                    &&& old(self)@.holders(key@) > 1
                    &&& back == key
                    &&& final(self)@ == old(self)@
                },
            },
    {
        if self.holders(&key) == 1 {
            match self.release(key) {
                Some(value) => Ok(value),
                None => vstd::pervasive::unreached(),
            }
        } else {
            Err(key)
        }
    }

    /// The value in the cell of `key`.
    pub fn get(&self, key: &Key) -> (value: &T)
        requires
            self@.contains(key@),
        ensures
            *value == self@.value(key@),
    {
        match &self.slots[key.index] {
            Slot::Held { value, .. } => value,
            Slot::Vacant => vstd::pervasive::unreached(),
        }
    }

    /// The value in the cell of `key`, to be changed in place. What the
    /// borrower leaves there is what every key to the cell then sees.
    pub fn get_mut(&mut self, key: &Key) -> (value: &mut T)
        requires
            old(self)@.contains(key@),
        ensures
            *value == old(self)@.value(key@),
            final(self)@.cells =~= old(self)@.update(key@, *final(value)).cells,
            final(self)@.next == old(self)@.next,
    {
        match &mut self.slots[key.index] {
            Slot::Held { value, .. } => value,
            Slot::Vacant => vstd::pervasive::unreached(),
        }
    }

    /// Puts `value` in the cell of `key` and hands back what was there.
    pub fn replace(&mut self, key: &Key, value: T) -> (before: T)
        requires
            old(self)@.contains(key@),
        ensures
            before == old(self)@.value(key@),
            final(self)@ == old(self)@.update(key@, value),
    {
        let mut held = value;
        let slot = self.get_mut(key);
        core::mem::swap(&mut held, slot);
        held
    }
}

} // verus!
