//! A table with one entry per key address.
use vstd::prelude::*;
use crate::key_defs::{Key, KeyAddr, undefined};

verus! {

/// One [`Key`] per key address, `N` entries.
pub struct KeyAddrMap<const N: usize> {
    values: Vec<Key>,
}

impl<const N: usize> View for KeyAddrMap<N> {
    type V = Seq<Key>;

    closed spec fn view(&self) -> Seq<Key> {
        self.values@
    }
}

impl<const N: usize> KeyAddrMap<N> {
    /// The table holds exactly `N` entries.
    pub open spec fn wf(&self) -> bool {
        self@.len() == N
    }

    /// A table of `N` undefined keys.
    pub fn new() -> (r: Self)
        ensures
            r.wf(),
            r@.len() == N,
            forall|i: int| 0 <= i < N ==> #[trigger] r@[i] == undefined(),
    {
        let mut values: Vec<Key> = Vec::new();
        let mut i: usize = 0;
        while i < N
            invariant
                i <= N,
                values@.len() == i,
                forall|j: int| 0 <= j < i ==> #[trigger] values@[j] == undefined(),
            decreases N - i,
        {
            values.push(Key::undefined());
            i = i + 1;
        }
        KeyAddrMap { values }
    }

    /// The number of entries.
    pub fn len() -> (r: usize)
        ensures
            r == N,
    {
        N
    }

    /// The entry at `addr`.
    pub fn get(&self, addr: KeyAddr) -> (r: Key)
        requires
            self.wf(),
            addr.index_spec() < N,
        ensures
            r == self@[addr.index_spec()],
    {
        self.values[addr.index()]
    }

    /// Replaces the entry at `addr`.
    pub fn set(&mut self, addr: KeyAddr, key: Key)
        requires
            old(self).wf(),
            addr.index_spec() < N,
        ensures
            final(self).wf(),
            final(self)@ == old(self)@.update(addr.index_spec(), key),
    {
        self.values.set(addr.index(), key);
    }

    /// Replaces every entry with `key`.
    pub fn fill(&mut self, key: Key)
        requires
            old(self).wf(),
        ensures
            final(self).wf(),
            forall|i: int| 0 <= i < N ==> #[trigger] final(self)@[i] == key,
    {
        let mut i: usize = 0;
        while i < N
            invariant
                i <= N,
                self.values@.len() == N,
                forall|j: int| 0 <= j < i ==> #[trigger] self.values@[j] == key,
            decreases N - i,
        {
            self.values.set(i, key);
            i = i + 1;
        }
    }

    /// The entries in address order.
    pub fn iter(&self) -> (r: KeyAddrMapIter<'_>)
        ensures
            r.wf(),
            r.remaining() == self@,
    {
        KeyAddrMapIter { index: 0, values: &self.values }
    }

    /// A cursor that rewrites the entries in address order.
    pub fn iter_mut(&mut self) -> (r: KeyAddrMapIterMut<'_, N>)
        ensures
            r.position() == 0,
            *r.map() == *old(self),
            *final(r.map()) == *final(self),
    {
        KeyAddrMapIterMut { index: 0, map: self }
    }
}

/// Yields the entries of a [`KeyAddrMap`] in address order.
pub struct KeyAddrMapIter<'m> {
    index: usize,
    values: &'m Vec<Key>,
}

impl<'m> KeyAddrMapIter<'m> {
    /// The cursor lies within the entries.
    pub closed spec fn wf(&self) -> bool {
        self.index <= self.values@.len()
    }

    /// The entries not yet yielded.
    pub closed spec fn remaining(&self) -> Seq<Key> {
        self.values@.subrange(self.index as int, self.values@.len() as int)
    }

    /// The next entry, if any.
    pub fn next(&mut self) -> (r: Option<Key>)
        requires
            old(self).wf(),
        ensures
            final(self).wf(),
            old(self).remaining().len() == 0 ==> r is None && final(self).remaining() == old(self).remaining(),
            old(self).remaining().len() > 0 ==> r == Some(old(self).remaining()[0])
                && final(self).remaining() == old(self).remaining().drop_first(),
    {
        if self.index < self.values.len() {
            let k = self.values[self.index];
            self.index = self.index + 1;
            Some(k)
        } else {
            None
        }
    }
}

/// Rewrites the entries of a [`KeyAddrMap`] in address order.
pub struct KeyAddrMapIterMut<'m, const N: usize> {
    index: usize,
    map: &'m mut KeyAddrMap<N>,
}

impl<'m, const N: usize> KeyAddrMapIterMut<'m, N> {
    /// The address of the next entry to rewrite.
    pub closed spec fn position(&self) -> int {
        self.index as int
    }

    /// The table being rewritten.
    pub closed spec fn map(&self) -> &'m mut KeyAddrMap<N> {
        self.map
    }

    /// Replaces the next entry with `key`; false when none is left.
    pub fn set_next(&mut self, key: Key) -> (r: bool)
        requires
            old(self).map().wf(),
        ensures
            r == (old(self).position() < N),
            final(self).map().wf(),
            r ==> final(self).map()@ == old(self).map()@.update(old(self).position(), key)
                && final(self).position() == old(self).position() + 1,
            !r ==> final(self).map()@ == old(self).map()@,
    {
        if self.index < N {
            self.map.values.set(self.index, key);
            self.index = self.index + 1;
            true
        } else {
            false
        }
    }
}

} // verus!
