//! The value each key currently sends to the host.
use vstd::prelude::*;
use crate::key_addr_map::{KeyAddrMap, KeyAddrMapIter, KeyAddrMapIterMut};
use crate::key_defs::{Key, KeyAddr, UPPER_LIMIT, inactive, masked, undefined};

verus! {

/// Number of key addresses, as an index bound.
pub const KEY_COUNT: usize = 48;

/// A table with one entry per key of the keyboard.
pub type KeyMap = KeyAddrMap<KEY_COUNT>;

/// The live state of every key.
///
/// An entry is inactive (the key is not pressed), masked (the key is held
/// but suppressed until its release), or the key value it sends. An
/// address out of range reads and writes a dummy cell instead.
pub struct LiveKeys {
    key_map: KeyMap,
    dummy: Key,
}

impl LiveKeys {
    pub open spec fn wf(&self) -> bool {
        self.entries().len() == KEY_COUNT
    }

    /// The entries in address order.
    pub closed spec fn entries(&self) -> Seq<Key> {
        self.key_map@
    }

    /// The dummy cell read at out-of-range addresses.
    pub closed spec fn dummy(&self) -> Key {
        self.dummy
    }

    /// What `self[addr]` reads.
    pub open spec fn get_spec(&self, addr: KeyAddr) -> Key {
        if addr.is_valid_spec() {
            self.entries()[addr.index_spec()]
        } else {
            self.dummy()
        }
    }

    /// The same entries, except `addr` (when valid) holds `key`.
    pub open spec fn with(&self, addr: KeyAddr, key: Key) -> Seq<Key> {
        if addr.is_valid_spec() {
            self.entries().update(addr.index_spec(), key)
        } else {
            self.entries()
        }
    }

    /// Every entry undefined, the dummy masked.
    pub fn new() -> (r: LiveKeys)
        ensures
            r.wf(),
            r.entries().len() == KEY_COUNT,
            forall|i: int| 0 <= i < KEY_COUNT ==> #[trigger] r.entries()[i] == undefined(),
            r.dummy() == masked(),
    {
        LiveKeys { key_map: KeyMap::new(), dummy: Key::masked() }
    }

    /// The entry at `addr`; the dummy cell when `addr` is out of range.
    pub fn get(&self, addr: KeyAddr) -> (r: Key)
        requires
            self.wf(),
        ensures
            r == self.get_spec(addr),
    {
        proof {
            assert(UPPER_LIMIT == KEY_COUNT);
        }
        if addr.is_valid() {
            self.key_map.get(addr)
        } else {
            self.dummy
        }
    }

    /// Writes the entry at `addr`; the dummy cell when `addr` is out of range.
    pub fn set(&mut self, addr: KeyAddr, key: Key)
        requires
            old(self).wf(),
        ensures
            final(self).wf(),
            final(self).entries() == old(self).with(addr, key),
            final(self).dummy() == (if addr.is_valid_spec() { old(self).dummy() } else { key }),
    {
        if addr.is_valid() {
            self.key_map.set(addr, key);
        } else {
            self.dummy = key;
        }
    }

    /// Sets a valid entry to "active" with `key`.
    pub fn activate(&mut self, key_addr: KeyAddr, key: Key)
        requires
            old(self).wf(),
        ensures
            final(self).wf(),
            final(self).entries() == old(self).with(key_addr, key),
            final(self).dummy() == old(self).dummy(),
    {
        if key_addr.is_valid() {
            self.key_map.set(key_addr, key);
        }
    }

    /// Deactivates a valid entry.
    pub fn clear(&mut self, key_addr: KeyAddr)
        requires
            old(self).wf(),
        ensures
            final(self).wf(),
            final(self).entries() == old(self).with(key_addr, inactive()),
            final(self).dummy() == old(self).dummy(),
    {
        if key_addr.is_valid() {
            self.key_map.set(key_addr, Key::inactive());
        }
    }

    /// Masks a valid entry until the key's next release.
    pub fn mask(&mut self, key_addr: KeyAddr)
        requires
            old(self).wf(),
        ensures
            final(self).wf(),
            final(self).entries() == old(self).with(key_addr, masked()),
            final(self).dummy() == old(self).dummy(),
    {
        if key_addr.is_valid() {
            self.key_map.set(key_addr, Key::masked());
        }
    }

    /// Deactivates every entry.
    pub fn clear_all(&mut self)
        requires
            old(self).wf(),
        ensures
            final(self).wf(),
            final(self).entries().len() == KEY_COUNT,
            forall|i: int| 0 <= i < KEY_COUNT ==> #[trigger] final(self).entries()[i] == inactive(),
            final(self).dummy() == old(self).dummy(),
    {
        self.key_map.fill(Key::inactive());
    }

    /// The entries in address order.
    pub fn iter(&self) -> (r: KeyAddrMapIter<'_>)
        ensures
            r.wf(),
            r.remaining() == self.entries(),
    {
        self.key_map.iter()
    }

    /// A cursor that rewrites the entries in address order.
    pub fn iter_mut(&mut self) -> (r: KeyAddrMapIterMut<'_, KEY_COUNT>)
        requires
            old(self).wf(),
        ensures
            r.position() == 0,
            r.map()@ == old(self).entries(),
            r.map().wf(),
            final(r.map())@ == final(self).entries(),

            final(self).dummy() == old(self).dummy(),
    {
        self.key_map.iter_mut()
    }
}

} // verus!
