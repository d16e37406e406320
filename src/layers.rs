//! The stack of active keymap layers and the lookup through it.
use vstd::prelude::*;
use crate::event_handler::EventHandler;
use crate::error::Error;
use crate::key_defs::{
    Key, KeyAddr, LAYER_MOVE_OFFSET, LAYER_SHIFT_OFFSET, KEYMAP_NEXT, KEYMAP_PREVIOUS, no_key,
    masked, transparent, shift_to_layer, shift_to_layer_spec,
};
use crate::key_event::KeyEvent;
use crate::live_keys::LiveKeys;

verus! {

/// Capacity of the active-layer stack.
pub const MAX_ACTIVE_LAYERS: usize = 16;
/// Number of key addresses.
pub const NUM_KEYS: usize = 48;

/// The compiled keymap: one row of keys per layer, indexed by key address.
pub struct Keymap {
    layers: Vec<Vec<Key>>,
}

impl Keymap {
    /// The layers, each as the sequence of its keys.
    pub closed spec fn table(&self) -> Seq<Seq<Key>> {
        Seq::new(self.layers@.len(), |i: int| self.layers@[i]@)
    }

    /// The entry of `layer` at `addr`; no key where the table has none.
    pub open spec fn key_spec(&self, layer: int, addr: KeyAddr) -> Key {
        if 0 <= layer < self.table().len() && addr.is_valid_spec() && addr.index_spec()
            < self.table()[layer].len() {
            self.table()[layer][addr.index_spec()]
        } else {
            no_key()
        }
    }

    /// A keymap with the given layers.
    pub fn new(layers: Vec<Vec<Key>>) -> (r: Keymap)
        ensures
            r.table().len() == layers@.len(),
            forall|i: int| 0 <= i < layers@.len() ==> #[trigger] r.table()[i] == layers@[i]@,
    {
        Keymap { layers }
    }

    /// The number of layers.
    pub fn num_layers(&self) -> (r: usize)
        ensures
            r == self.table().len(),
    {
        self.layers.len()
    }

    /// The entry of `layer` at `addr`; no key where the table has none.
    pub fn key(&self, layer: usize, addr: KeyAddr) -> (r: Key)
        ensures
            r == self.key_spec(layer as int, addr),
    {
        if layer >= self.layers.len() || !addr.is_valid() || addr.index() >= self.layers[layer].len() {
            Key::no_key()
        } else {
            self.layers[layer][addr.index()]
        }
    }
}

/// The layer index that a stack entry stands for: shifted entries carry
/// `LAYER_SHIFT_OFFSET` on top of it.
pub open spec fn unshifted_spec(layer: u8) -> u8 {
    if layer >= LAYER_SHIFT_OFFSET {
        (layer - LAYER_SHIFT_OFFSET) as u8
    } else {
        layer
    }
}

/// The first position of `x` in `s` at or after `i`, or -1.
pub open spec fn find_from(s: Seq<u8>, x: u8, i: nat) -> int
    decreases s.len() - i,
{
    if i >= s.len() {
        -1
    } else if s[i as int] == x {
        i as int
    } else {
        find_from(s, x, i + 1)
    }
}

/// The first position of `x` in `s`, or -1.
pub open spec fn stack_position_spec(s: Seq<u8>, x: u8) -> int {
    find_from(s, x, 0)
}

/// The layer whose entry is in effect at `addr`, looking at the `n` lowest
/// stack entries from the top down: the first whose entry is not
/// transparent; layer 0 when there is none.
pub open spec fn resolve_layer(km: Keymap, s: Seq<u8>, addr: KeyAddr, n: nat) -> u8
    decreases n,
{
    if n == 0 || n > s.len() {
        0
    } else {
        let l = unshifted_spec(s[n - 1]);
        if km.key_spec(l as int, addr) != transparent() {
            l
        } else {
            resolve_layer(km, s, addr, (n - 1) as nat)
        }
    }
}

/// The stack after activating `layer` (known to exist): an earlier entry
/// of it is removed, the bottom is evicted while the stack is full, and
/// `layer` goes on top.
pub open spec fn activated_stack(s: Seq<u8>, layer: u8) -> Seq<u8> {
    let p = stack_position_spec(s, layer);
    let s1 = if p >= 0 {
        s.remove(p)
    } else {
        s
    };
    let s2 = if s1.len() >= MAX_ACTIVE_LAYERS {
        s1.subrange(s1.len() - (MAX_ACTIVE_LAYERS - 1), s1.len() as int)
    } else {
        s1
    };
    s2.push(layer)
}

/// The stack after `activate(layer)` with `layer_count` layers.
pub open spec fn activate_effect(s: Seq<u8>, layer: u8, layer_count: nat) -> Seq<u8> {
    if unshifted_spec(layer) >= layer_count {
        s
    } else {
        activated_stack(s, layer)
    }
}

/// The stack after `deactivate(layer)`.
pub open spec fn deactivate_effect(s: Seq<u8>, layer: u8) -> Seq<u8> {
    let p = stack_position_spec(s, layer);
    if p < 0 {
        s
    } else if s.len() <= 1 {
        seq![0u8]
    } else {
        s.remove(p)
    }
}

/// The stack after `move_layer(layer)` with `layer_count` layers.
pub open spec fn move_effect(s: Seq<u8>, layer: u8, layer_count: nat) -> Seq<u8> {
    if layer > layer_count {
        s
    } else {
        seq![layer]
    }
}

/// A result that is success or the error kind of a hook.
pub open spec fn ok_or_hook_error(r: Result<(), Error>) -> bool {
    r is Ok || r->Err_0.is_event_kind()
}

/// The keycode that layer-key decoding works on: a mod-layer key stands
/// for the layer-shift of `key_code / 8`.
pub open spec fn layer_code(key: Key) -> u8 {
    if key.is_mod_layer_key_spec() {
        (key.key_code / 8 + LAYER_SHIFT_OFFSET) as u8
    } else {
        key.key_code
    }
}

/// The topmost locked (unshifted) entry among the `n` lowest of `s`.
pub open spec fn top_locked(s: Seq<u8>, n: nat) -> Option<u8>
    decreases n,
{
    if n == 0 || n > s.len() {
        None
    } else if s[n - 1] < LAYER_SHIFT_OFFSET {
        Some(s[n - 1])
    } else {
        top_locked(s, (n - 1) as nat)
    }
}

/// The layer that a next/previous-keymap key targets: one above or below
/// the top layer, wrapping in eight bits.
pub open spec fn relative_target(s: Seq<u8>, t: u8) -> u8 {
    let top = unshifted_spec(s.last());
    if t == KEYMAP_NEXT {
        ((top + 1) % 256) as u8
    } else {
        ((top + 255) % 256) as u8
    }
}

/// The stack after a layer-key event.
pub open spec fn layer_key_stack(s: Seq<u8>, lc: nat, event: KeyEvent) -> Seq<u8> {
    let code = layer_code(event.key);
    let on = event.state.toggled_on_spec();
    if code >= LAYER_MOVE_OFFSET {
        if on {
            move_effect(s, (code - LAYER_MOVE_OFFSET) as u8, lc)
        } else {
            s
        }
    } else if code >= LAYER_SHIFT_OFFSET {
        let t = (code - LAYER_SHIFT_OFFSET) as u8;
        if t == KEYMAP_NEXT || t == KEYMAP_PREVIOUS {
            let target = relative_target(s, t);
            if on && target < lc {
                activate_effect(s, ((target + LAYER_SHIFT_OFFSET) % 256) as u8, lc)
            } else {
                s
            }
        } else if on {
            if stack_position_spec(s, code) >= 0 {
                s
            } else {
                activate_effect(s, code, lc)
            }
        } else {
            deactivate_effect(s, code)
        }
    } else if on {
        if top_locked(s, s.len()) == Some(code) {
            deactivate_effect(s, code)
        } else {
            activate_effect(s, code, lc)
        }
    } else {
        s
    }
}

/// The live-key entry that a layer-key event writes at its address, if any:
/// a next/previous-keymap key pressed is masked when its target does not
/// exist, and otherwise becomes the layer-shift key of its target.
pub open spec fn layer_key_live(s: Seq<u8>, lc: nat, event: KeyEvent) -> Option<Key> {
    let code = layer_code(event.key);
    let t = (code - LAYER_SHIFT_OFFSET) as u8;
    if LAYER_SHIFT_OFFSET <= code < LAYER_MOVE_OFFSET && (t == KEYMAP_NEXT || t == KEYMAP_PREVIOUS)
        && event.state.toggled_on_spec() {
        let target = relative_target(s, t);
        if target >= lc {
            Some(masked())
        } else {
            Some(shift_to_layer_spec(target))
        }
    } else {
        None
    }
}

/// No entry of `s` occurs twice.
pub open spec fn no_repeats(s: Seq<u8>) -> bool {
    forall|i: int, j: int| 0 <= i < j < s.len() ==> s[i] != s[j]
}

/// Where `x` is not found at or after `i`, no entry there is `x`.
proof fn lemma_find_absent(s: Seq<u8>, x: u8, i: nat)
    requires
        find_from(s, x, i) < 0,
    ensures
        forall|k: int| i <= k < s.len() ==> s[k] != x,
    decreases s.len() - i,
{
    if i < s.len() {
        lemma_find_absent(s, x, i + 1);
    }
}

/// Removing an entry keeps a stack free of repeats.
proof fn lemma_remove_no_repeats(s: Seq<u8>, p: int)
    requires
        no_repeats(s),
        0 <= p < s.len(),
    ensures
        no_repeats(s.remove(p)),
        forall|k: int| 0 <= k < s.len() - 1 ==> s.remove(p)[k] != s[p],
{
    let t = s.remove(p);
    assert forall|i: int, j: int| 0 <= i < j < t.len() implies t[i] != t[j] by {
        let a = if i < p { i } else { i + 1 };
        let b = if j < p { j } else { j + 1 };
        assert(t[i] == s[a] && t[j] == s[b]);
    }
    assert forall|k: int| 0 <= k < s.len() - 1 implies t[k] != s[p] by {
        let a = if k < p { k } else { k + 1 };
        assert(t[k] == s[a]);
    }
}

/// Activation puts `layer` on top and nowhere else, and keeps the stack
/// free of repeats.
pub proof fn lemma_activated_no_repeats(s: Seq<u8>, layer: u8)
    requires
        no_repeats(s),
        s.len() <= MAX_ACTIVE_LAYERS,
    ensures
        no_repeats(activated_stack(s, layer)),
        activated_stack(s, layer).last() == layer,
        forall|k: int| 0 <= k < activated_stack(s, layer).len() - 1 ==> activated_stack(s, layer)[k] != layer,
        1 <= activated_stack(s, layer).len() <= MAX_ACTIVE_LAYERS,
{
    let p = stack_position_spec(s, layer);
    lemma_find_bounds(s, layer, 0);
    let s1 = if p >= 0 {
        s.remove(p)
    } else {
        s
    };
    if p >= 0 {
        lemma_remove_no_repeats(s, p);
    } else {
        lemma_find_absent(s, layer, 0);
    }
    assert(no_repeats(s1));
    assert(forall|k: int| 0 <= k < s1.len() ==> s1[k] != layer);
    let s2 = if s1.len() >= MAX_ACTIVE_LAYERS {
        s1.subrange(s1.len() - (MAX_ACTIVE_LAYERS - 1), s1.len() as int)
    } else {
        s1
    };
    assert(forall|k: int| 0 <= k < s2.len() ==> s2[k] == s1[k + (s1.len() - s2.len())]);
    assert(no_repeats(s2));
    assert(forall|k: int| 0 <= k < s2.len() ==> s2[k] != layer);
    let t = s2.push(layer);
    assert(t == activated_stack(s, layer));
    assert forall|i: int, j: int| 0 <= i < j < t.len() implies t[i] != t[j] by {
        if j == t.len() - 1 {
        } else {
            assert(t[i] == s2[i] && t[j] == s2[j]);
        }
    }
}

/// The position found is -1 or a position of `x` at or after `i`.
proof fn lemma_find_bounds(s: Seq<u8>, x: u8, i: nat)
    ensures
        find_from(s, x, i) == -1 || (i <= find_from(s, x, i) < s.len() && s[find_from(s, x, i)]
            == x),
    decreases s.len() - i,
{
    if i < s.len() && s[i as int] != x {
        lemma_find_bounds(s, x, i + 1);
    }
}

/// `x` occurs at or after `i` in `s`, at position `k`.
proof fn lemma_find_found(s: Seq<u8>, x: u8, i: nat, k: int)
    requires
        i <= k < s.len(),
        s[k] == x,
    ensures
        find_from(s, x, i) >= 0,
    decreases s.len() - i,
{
    if s[i as int] != x {
        lemma_find_found(s, x, i + 1, k);
    }
}

/// The stack is never left empty: deactivating the sole active layer
/// leaves layer 0 as the sole active layer, and every other change leaves
/// between one and `MAX_ACTIVE_LAYERS` entries.
pub proof fn lemma_stack_never_empty(s: Seq<u8>, layer: u8, layer_count: nat)
    requires
        1 <= s.len() <= MAX_ACTIVE_LAYERS,
    ensures
        s.len() == 1 && s[0] == layer ==> deactivate_effect(s, layer) == seq![0u8],
        1 <= deactivate_effect(s, layer).len() <= MAX_ACTIVE_LAYERS,
        1 <= activate_effect(s, layer, layer_count).len() <= MAX_ACTIVE_LAYERS,
        1 <= move_effect(s, layer, layer_count).len() <= MAX_ACTIVE_LAYERS,
{
    lemma_find_bounds(s, layer, 0);
    if s.len() == 1 && s[0] == layer {
        assert(find_from(s, layer, 0) == 0);
    }
}

/// A layer-key event is the release of a shift key whose layer is not in
/// the stack: the one case that fails with a layer error.
pub open spec fn layer_release_missing(s: Seq<u8>, event: KeyEvent) -> bool {
    let code = layer_code(event.key);
    let t = (code - LAYER_SHIFT_OFFSET) as u8;
    &&& LAYER_SHIFT_OFFSET <= code < LAYER_MOVE_OFFSET
    &&& t != KEYMAP_NEXT && t != KEYMAP_PREVIOUS
    &&& !event.state.toggled_on_spec()
    &&& stack_position_spec(s, code) < 0
}

/// A layer-key event that changes no layer and so calls no hook: a
/// release of a move, lock or next/previous key, a press of a shift key
/// whose layer is already in the stack, or a press of a next/previous key
/// whose target does not exist.
pub open spec fn layer_key_is_quiet(s: Seq<u8>, lc: nat, event: KeyEvent) -> bool {
    let code = layer_code(event.key);
    let t = (code - LAYER_SHIFT_OFFSET) as u8;
    let on = event.state.toggled_on_spec();
    let shift = LAYER_SHIFT_OFFSET <= code < LAYER_MOVE_OFFSET;
    let relative = t == KEYMAP_NEXT || t == KEYMAP_PREVIOUS;
    ||| !on && (code >= LAYER_MOVE_OFFSET || code < LAYER_SHIFT_OFFSET || (shift && relative))
    ||| on && shift && relative && relative_target(s, t) >= lc
    ||| on && shift && !relative && stack_position_spec(s, code) >= 0
}

/// The topmost locked entry is in the stack.
proof fn lemma_top_locked_present(s: Seq<u8>, n: nat)
    requires
        n <= s.len(),
        top_locked(s, n) is Some,
    ensures
        stack_position_spec(s, top_locked(s, n)->0) >= 0,
    decreases n,
{
    if s[n - 1] < LAYER_SHIFT_OFFSET {
        lemma_find_found(s, s[n - 1], 0, n - 1);
    } else {
        lemma_top_locked_present(s, (n - 1) as nat);
    }
}

/// All entries of the `n` lowest stack entries at `addr` are transparent.
proof fn lemma_resolve_all_transparent(km: Keymap, s: Seq<u8>, addr: KeyAddr, n: nat)
    requires
        n <= s.len(),
        forall|i: int|
            0 <= i < n ==> #[trigger] km.key_spec(unshifted_spec(s[i]) as int, addr)
                == transparent(),
    ensures
        resolve_layer(km, s, addr, n) == 0,
    decreases n,
{
    if n > 0 {
        assert(km.key_spec(unshifted_spec(s[n - 1]) as int, addr) == transparent());
        lemma_resolve_all_transparent(km, s, addr, (n - 1) as nat);
    }
}

/// Where every active layer's entry at `addr` is transparent, the key in
/// effect there is the entry of the base layer (layer 0).
pub proof fn lemma_layer_fallback(layer: &Layer, addr: KeyAddr)
    requires
        layer.wf(),
        addr.is_valid_spec(),
        forall|i: int|
            0 <= i < layer.stack().len() ==> #[trigger] layer.keymap().key_spec(
                unshifted_spec(layer.stack()[i]) as int,
                addr,
            ) == transparent(),
    ensures
        layer.active_layer_of(addr) == 0,
        layer.lookup_spec(addr) == layer.keymap().key_spec(0, addr),
{
    lemma_resolve_all_transparent(layer.keymap(), layer.stack(), addr, layer.stack().len());
}

/// The active layers and the cache of the layer in effect at each address.
pub struct Layer {
    active_layer_count: usize,
    active_layers: Vec<u8>,
    active_layer_keymap: Vec<u8>,
    layer_count: u8,
    keymap: Keymap,
}

impl Layer {
    /// The active layers, bottom first.
    pub closed spec fn stack(&self) -> Seq<u8> {
        self.active_layers@.subrange(0, self.active_layer_count as int)
    }

    /// The number of layers that may be activated.
    pub closed spec fn layer_count_spec(&self) -> nat {
        self.layer_count as nat
    }

    pub closed spec fn keymap(&self) -> Keymap {
        self.keymap
    }

    /// The layer in effect at `addr`.
    pub open spec fn active_layer_of(&self, addr: KeyAddr) -> u8 {
        resolve_layer(self.keymap(), self.stack(), addr, self.stack().len())
    }

    /// The key in effect at `addr`.
    pub open spec fn lookup_spec(&self, addr: KeyAddr) -> Key {
        self.keymap().key_spec(self.active_layer_of(addr) as int, addr)
    }

    pub closed spec fn shape(&self) -> bool {
        &&& self.active_layers@.len() == MAX_ACTIVE_LAYERS
        &&& self.active_layer_count <= MAX_ACTIVE_LAYERS
        &&& self.active_layer_keymap@.len() == NUM_KEYS
    }

    /// The cache holds, for every address, the layer in effect there.
    pub closed spec fn cache_ok(&self) -> bool {
        forall|i: int|
            0 <= i < NUM_KEYS ==> #[trigger] self.active_layer_keymap@[i] == self.active_layer_of(
                KeyAddr { offset: i as u8 },
            )
    }

    /// Well-formed: a stack of 1 to 16 layers, none twice, and a
    /// consistent cache.
    pub open spec fn wf(&self) -> bool {
        &&& self.inner_wf()
        &&& 1 <= self.stack().len() <= MAX_ACTIVE_LAYERS
        &&& no_repeats(self.stack())
        &&& self.layer_count_spec() <= 255
    }

    pub closed spec fn inner_wf(&self) -> bool {
        self.shape() && self.cache_ok()
    }

    /// Everything but the stack is as in `other`.
    pub open spec fn same_config(&self, other: &Layer) -> bool {
        self.keymap() == other.keymap() && self.layer_count_spec() == other.layer_count_spec()
    }

    /// Layer 0 alone, with every layer of `keymap` available.
    pub fn new(keymap: Keymap) -> (r: Layer)
        ensures
            r.wf(),
            r.stack() == seq![0u8],
            r.keymap() == keymap,
            r.layer_count_spec() == (if keymap.table().len() > 255 {
                255
            } else {
                keymap.table().len()
            }),
    {
        let n = keymap.num_layers();
        let layer_count: u8 = if n > 255 {
            255
        } else {
            n as u8
        };
        let mut active_layers: Vec<u8> = Vec::new();
        let mut i: usize = 0;
        while i < MAX_ACTIVE_LAYERS
            invariant
                i <= MAX_ACTIVE_LAYERS,
                active_layers@.len() == i,
                forall|j: int| 0 <= j < i ==> #[trigger] active_layers@[j] == 0,
            decreases MAX_ACTIVE_LAYERS - i,
        {
            active_layers.push(0);
            i = i + 1;
        }
        let mut active_layer_keymap: Vec<u8> = Vec::new();
        let mut i: usize = 0;
        while i < NUM_KEYS
            invariant
                i <= NUM_KEYS,
                active_layer_keymap@.len() == i,
                forall|j: int| 0 <= j < i ==> #[trigger] active_layer_keymap@[j] == 0,
            decreases NUM_KEYS - i,
        {
            active_layer_keymap.push(0);
            i = i + 1;
        }
        let r = Layer {
            active_layer_count: 1,
            active_layers,
            active_layer_keymap,
            layer_count,
            keymap,
        };
        assert(r.stack() =~= seq![0u8]);
        assert forall|i: int| 0 <= i < NUM_KEYS implies #[trigger] r.active_layer_keymap@[i]
            == r.active_layer_of(KeyAddr { offset: i as u8 }) by {
            reveal_with_fuel(resolve_layer, 2);
        }
        r
    }

    /// Recomputes the cache; it is already consistent after every change.
    pub fn setup(&mut self)
        requires
            old(self).wf(),
        ensures
            final(self).wf(),
            final(self).stack() == old(self).stack(),
            final(self).same_config(old(self)),
    {
        self.recompute();
    }

    /// The key in effect at `key_addr`: the entry of the topmost active
    /// layer that is not transparent there, else the entry of layer 0.
    pub fn lookup_on_active_layer(&self, key_addr: &KeyAddr) -> (r: Key)
        requires
            self.wf(),
            key_addr.is_valid_spec(),
        ensures
            r == self.lookup_spec(*key_addr),
    {
        let layer = self.lookup_active_layer(key_addr);
        self.key(layer as usize, key_addr)
    }

    /// The layer in effect at `key_addr`.
    pub fn lookup_active_layer(&self, key_addr: &KeyAddr) -> (r: u8)
        requires
            self.wf(),
            key_addr.is_valid_spec(),
        ensures
            r == self.active_layer_of(*key_addr),
    {
        let r = self.active_layer_keymap[key_addr.index()];
        assert(self.active_layer_keymap@[key_addr.index_spec()] == self.active_layer_of(
            KeyAddr { offset: key_addr.offset },
        ));
        r
    }

    /// The keymap entry of `layer` at `key_addr`; no key where there is none.
    pub fn key(&self, layer: usize, key_addr: &KeyAddr) -> (r: Key)
        ensures
            r == self.keymap().key_spec(layer as int, *key_addr),
    {
        self.keymap.key(layer, *key_addr)
    }

    /// The number of layers that may be activated.
    pub fn layer_count(&self) -> (r: usize)
        ensures
            r == self.layer_count_spec(),
    {
        self.layer_count as usize
    }

    /// Sets the number of layers that may be activated, kept to eight bits.
    pub fn set_layer_count(&mut self, count: usize)
        requires
            old(self).wf(),
        ensures
            final(self).wf(),
            final(self).stack() == old(self).stack(),
            final(self).keymap() == old(self).keymap(),
            final(self).layer_count_spec() == count % 256,
    {
        self.layer_count = (count % 256) as u8;
    }

    /// The layer in effect at `addr`, computed from the stack.
    fn resolve(&self, addr: KeyAddr) -> (r: u8)
        requires
            self.shape(),
        ensures
            r == self.active_layer_of(addr),
    {
        let ghost s = self.stack();
        let mut n: usize = self.active_layer_count;
        while n > 0
            invariant
                self.shape(),
                s == self.stack(),
                n <= self.active_layer_count,
                resolve_layer(self.keymap, s, addr, s.len()) == resolve_layer(
                    self.keymap,
                    s,
                    addr,
                    n as nat,
                ),
            decreases n,
        {
            let l = self.unshifted(self.active_layers[n - 1]);
            assert(s[n - 1] == self.active_layers@[n - 1]);
            let key = self.keymap.key(l as usize, addr);
            if key != Key::transparent() {
                return l;
            }
            n = n - 1;
        }
        0
    }

    /// Recomputes, for every address, the layer in effect there: the
    /// topmost active layer whose entry is not transparent, else layer 0.
    pub fn update_active_layers(&mut self)
        requires
            old(self).wf(),
        ensures
            final(self).wf(),
            final(self).stack() == old(self).stack(),
            final(self).same_config(old(self)),
    {
        self.recompute();
    }

    fn recompute(&mut self)
        requires
            old(self).shape(),
            1 <= old(self).stack().len(),
            no_repeats(old(self).stack()),
        ensures
            final(self).wf(),
            final(self).stack() == old(self).stack(),
            final(self).same_config(old(self)),
    {
        let mut a: usize = 0;
        while a < NUM_KEYS
            invariant
                self.shape(),
                a <= NUM_KEYS,
                self.stack() == old(self).stack(),
                self.keymap == old(self).keymap,
                self.layer_count == old(self).layer_count,
                forall|i: int|
                    0 <= i < a ==> #[trigger] self.active_layer_keymap@[i] == self.active_layer_of(
                        KeyAddr { offset: i as u8 },
                    ),
            decreases NUM_KEYS - a,
        {
            let addr = KeyAddr::new(a as u8);
            let l = self.resolve(addr);
            self.active_layer_keymap.set(a, l);
            a = a + 1;
        }
    }

    fn unshifted(&self, layer: u8) -> (r: u8)
        ensures
            r == unshifted_spec(layer),
    {
        if layer >= LAYER_SHIFT_OFFSET {
            layer - LAYER_SHIFT_OFFSET
        } else {
            layer
        }
    }

    fn last_layer(&self) -> (r: u8)
        requires
            self.wf(),
        ensures
            r == self.stack().last(),
    {
        self.active_layers[self.active_layer_count - 1]
    }

    fn stack_position(&self, layer: u8) -> (r: Result<usize, Error>)
        requires
            self.shape(),
        ensures
            stack_position_spec(self.stack(), layer) >= 0 ==> r == Ok::<usize, Error>(
                stack_position_spec(self.stack(), layer) as usize,
            ),
            stack_position_spec(self.stack(), layer) < 0 ==> r == Err::<usize, Error>(Error::Layer),
            r is Ok ==> r->Ok_0 < self.active_layer_count,
            stack_position_spec(self.stack(), layer) < self.stack().len(),
    {
        let ghost s = self.stack();
        proof {
            lemma_find_bounds(s, layer, 0);
        }
        let mut i: usize = 0;
        while i < self.active_layer_count
            invariant
                self.shape(),
                s == self.stack(),
                i <= self.active_layer_count,
                find_from(s, layer, 0) == find_from(s, layer, i as nat),
            decreases self.active_layer_count - i,
        {
            assert(s[i as int] == self.active_layers@[i as int]);
            if self.active_layers[i] == layer {
                return Ok(i);
            }
            i = i + 1;
        }
        Err(Error::Layer)
    }

    fn remove(&mut self, i: usize)
        requires
            old(self).shape(),
            i < old(self).active_layer_count,
        ensures
            final(self).shape(),
            final(self).stack() == old(self).stack().remove(i as int),
            final(self).active_layer_keymap == old(self).active_layer_keymap,
            final(self).keymap == old(self).keymap,
            final(self).layer_count == old(self).layer_count,
    {
        let mut j: usize = i;
        while j + 1 < self.active_layer_count
            invariant
                self.shape(),
                self.active_layer_count == old(self).active_layer_count,
                self.active_layer_keymap == old(self).active_layer_keymap,
                self.keymap == old(self).keymap,
                self.layer_count == old(self).layer_count,
                i <= j < self.active_layer_count,
                forall|k: int| 0 <= k < i ==> self.active_layers@[k] == old(self).active_layers@[k],
                forall|k: int|
                    i <= k < j ==> self.active_layers@[k] == old(self).active_layers@[k + 1],
                forall|k: int|
                    j <= k < MAX_ACTIVE_LAYERS ==> self.active_layers@[k] == old(
                        self,
                    ).active_layers@[k],
            decreases self.active_layer_count - j,
        {
            let v = self.active_layers[j + 1];
            self.active_layers.set(j, v);
            j = j + 1;
        }
        self.active_layer_count = self.active_layer_count - 1;
        assert(self.stack() =~= old(self).stack().remove(i as int));
    }

    /// Activates `layer` (a plain or shifted entry): an earlier entry of it
    /// is removed, the bottom entry is evicted when the stack is full, and
    /// `layer` goes on top. Nothing changes when its unshifted index is not
    /// below the layer count.
    pub fn activate<H: EventHandler>(&mut self, layer: u8) -> (r: Result<(), Error>)
        requires
            old(self).wf(),
        ensures
            final(self).wf(),
            final(self).same_config(old(self)),
            final(self).stack() == activate_effect(
                old(self).stack(),
                layer,
                old(self).layer_count_spec(),
            ),
            unshifted_spec(layer) >= old(self).layer_count_spec() ==> r is Ok,
            unshifted_spec(layer) < old(self).layer_count_spec() ==> final(self).stack().last()
                == layer && forall|k: int|
                0 <= k < final(self).stack().len() - 1 ==> final(self).stack()[k] != layer,
            ok_or_hook_error(r),
    {
        proof {
            lemma_activated_no_repeats(self.stack(), layer);
        }
        let layer_unshifted = self.unshifted(layer);
        if layer_unshifted as usize >= self.layer_count() {
            return Ok(());
        }
        let ghost s = self.stack();
        let ghost p = stack_position_spec(s, layer);
        if let Ok(old_pos) = self.stack_position(layer) {
            self.remove(old_pos);
        }
        let ghost s1 = self.stack();
        assert(s1 == (if p >= 0 {
            s.remove(p)
        } else {
            s
        }));
        // The stack never holds more than its capacity, so evicting the
        // bottom entry once makes room.
        if self.active_layer_count >= MAX_ACTIVE_LAYERS {
            self.remove(0);
            assert(self.stack() =~= s1.subrange(
                s1.len() - (MAX_ACTIVE_LAYERS - 1),
                s1.len() as int,
            ));
        }
        let ghost s2 = self.stack();
        assert(s2 == (if s1.len() >= MAX_ACTIVE_LAYERS {
            s1.subrange(s1.len() - (MAX_ACTIVE_LAYERS - 1), s1.len() as int)
        } else {
            s1
        }));
        self.active_layers.set(self.active_layer_count, layer);
        self.active_layer_count = self.active_layer_count + 1;
        assert(self.stack() =~= s2.push(layer));
        assert(self.stack() =~= activated_stack(s, layer));
        self.recompute();
        Self::notify::<H>()
    }

    /// Deactivates `layer`: an error when it is not in the stack; layer 0
    /// alone when it is the sole entry; otherwise it is removed and the
    /// others keep their order.
    pub fn deactivate<H: EventHandler>(&mut self, layer: u8) -> (r: Result<(), Error>)
        requires
            old(self).wf(),
        ensures
            final(self).wf(),
            final(self).same_config(old(self)),
            final(self).stack() == deactivate_effect(old(self).stack(), layer),
            stack_position_spec(old(self).stack(), layer) < 0 ==> r == Err::<(), Error>(
                Error::Layer,
            ),
            stack_position_spec(old(self).stack(), layer) >= 0 ==> ok_or_hook_error(r),
    {
        let current_pos = match self.stack_position(layer) {
            Ok(p) => p,
            Err(e) => {
                return Err(e);
            },
        };
        if self.active_layer_count <= 1 {
            return self.move_layer::<H>(0);
        }
        self.remove(current_pos);
        self.recompute();
        Self::notify::<H>()
    }

    /// Replaces the whole stack with `layer`, unless `layer` exceeds the
    /// layer count.
    pub fn move_layer<H: EventHandler>(&mut self, layer: u8) -> (r: Result<(), Error>)
        requires
            old(self).wf(),
        ensures
            final(self).wf(),
            final(self).same_config(old(self)),
            final(self).stack() == move_effect(old(self).stack(), layer, old(self).layer_count_spec()),
            layer > old(self).layer_count_spec() ==> r is Ok,
            ok_or_hook_error(r),
    {
        if layer as usize > self.layer_count() {
            return Ok(());
        }
        self.active_layer_count = 1;
        self.active_layers.set(0, layer);
        assert(self.stack() =~= seq![layer]);
        self.recompute();
        Self::notify::<H>()
    }

    /// True only when both the plain and the shifted entry of `layer` are
    /// in the stack.
    pub fn is_active(&self, layer: u8) -> (r: bool)
        requires
            self.wf(),
        ensures
            r == (stack_position_spec(self.stack(), layer) >= 0 && layer + LAYER_SHIFT_OFFSET
                <= 255 && stack_position_spec(
                self.stack(),
                (layer + LAYER_SHIFT_OFFSET) as u8,
            ) >= 0),
    {
        if layer > 255 - LAYER_SHIFT_OFFSET {
            return false;
        }
        self.stack_position(layer).is_ok() && self.stack_position(
            layer + LAYER_SHIFT_OFFSET,
        ).is_ok()
    }

    /// Activates the entry one above the top entry (wrapping in eight bits).
    pub fn activate_next<H: EventHandler>(&mut self) -> (r: Result<(), Error>)
        requires
            old(self).wf(),
        ensures
            final(self).wf(),
            final(self).same_config(old(self)),
            final(self).stack() == activate_effect(
                old(self).stack(),
                ((old(self).stack().last() + 1) % 256) as u8,
                old(self).layer_count_spec(),
            ),
            ok_or_hook_error(r),
    {
        let next = self.last_layer().wrapping_add(1);
        self.activate::<H>(next)
    }

    /// Deactivates the top entry.
    pub fn deactivate_most_recent<H: EventHandler>(&mut self) -> (r: Result<(), Error>)
        requires
            old(self).wf(),
        ensures
            final(self).wf(),
            final(self).same_config(old(self)),
            final(self).stack() == deactivate_effect(old(self).stack(), old(self).stack().last()),
            ok_or_hook_error(r),
    {
        let layer = self.last_layer();
        proof {
            let s = self.stack();
            assert(find_from(s, layer, 0) >= 0) by {
                lemma_find_found(s, layer, 0, s.len() - 1);
            }
        }
        self.deactivate::<H>(layer)
    }

    /// Calls `h` with the position and the unshifted index of every
    /// active layer, bottom first.
    pub fn for_each_active_layer<F: Fn(usize, u8)>(&self, h: F)
        requires
            self.wf(),
            forall|i: usize, l: u8| h.requires((i, l)),
    {
        let mut i: usize = 0;
        while i < self.active_layer_count
            invariant
                self.wf(),
                forall|i: usize, l: u8| h.requires((i, l)),
            decreases self.active_layer_count - i,
        {
            let layer = self.unshifted(self.active_layers[i]);
            h(i, layer);
            i = i + 1;
        }
    }

    /// Acts on a layer key (a layer or mod-layer key; the caller checks):
    /// a move key replaces the stack, a shift key activates its layer while
    /// held, a lock key toggles its layer, and a next/previous-keymap key
    /// shifts to the layer above or below the top one, or masks its own
    /// live entry when that layer does not exist.
    pub fn handle_layer_key_event<H: EventHandler>(
        &mut self,
        live_keys: &mut LiveKeys,
        event: KeyEvent,
    ) -> (r: Result<(), Error>)
        requires
            old(self).wf(),
            old(live_keys).wf(),
        ensures
            final(self).wf(),
            final(self).same_config(old(self)),
            final(self).stack() == layer_key_stack(
                old(self).stack(),
                old(self).layer_count_spec(),
                event,
            ),
            final(live_keys).wf(),
            final(live_keys).dummy() == old(live_keys).dummy(),
            final(live_keys).entries() == (if r is Ok && layer_key_live(
                old(self).stack(),
                old(self).layer_count_spec(),
                event,
            ) is Some {
                old(live_keys).with(
                    event.addr,
                    layer_key_live(old(self).stack(), old(self).layer_count_spec(), event)->0,
                )
            } else {
                old(live_keys).entries()
            }),
            r is Ok || r == Err::<(), Error>(Error::Layer) || r->Err_0.is_event_kind(),
            (r == Err::<(), Error>(Error::Layer)) == layer_release_missing(old(self).stack(), event),
            layer_key_is_quiet(old(self).stack(), old(self).layer_count_spec(), event) ==> r is Ok,
    {
        let key = event.key();
        let mut key_code = key.key_code();
        if key.is_mod_layer_key() {
            key_code = key_code / 8 + LAYER_SHIFT_OFFSET;
        }
        let toggled_on = event.state().key_toggled_on();
        if key_code >= LAYER_MOVE_OFFSET {
            if toggled_on {
                return self.move_layer::<H>(key_code - LAYER_MOVE_OFFSET);
            }
            Ok(())
        } else if key_code >= LAYER_SHIFT_OFFSET {
            let target_layer = key_code - LAYER_SHIFT_OFFSET;
            if target_layer == KEYMAP_NEXT || target_layer == KEYMAP_PREVIOUS {
                if toggled_on {
                    let top_layer = self.unshifted(self.last_layer());
                    let target = if target_layer == KEYMAP_NEXT {
                        top_layer.wrapping_add(1)
                    } else {
                        top_layer.wrapping_sub(1)
                    };
                    if target as usize >= self.layer_count() {
                        live_keys.mask(event.addr());
                        return Ok(());
                    }
                    let target_shifted = target.wrapping_add(LAYER_SHIFT_OFFSET);
                    match self.activate::<H>(target_shifted) {
                        Ok(()) => {},
                        Err(e) => {
                            return Err(e);
                        },
                    }
                    // The live entry of this key was written before the
                    // layer change; it now holds the shift to the target.
                    live_keys.activate(event.addr(), shift_to_layer(target));
                }
                Ok(())
            } else if toggled_on {
                if self.stack_position(key_code).is_err() {
                    return self.activate::<H>(key_code);
                }
                Ok(())
            } else {
                self.deactivate::<H>(key_code)
            }
        } else if toggled_on {
            let target_layer = key_code;
            let ghost s = self.stack();
            let mut top_locked_layer: Option<u8> = None;
            let mut i: usize = 0;
            while i < self.active_layer_count
                invariant
                    self.wf(),
                    s == self.stack(),
                    i <= self.active_layer_count,
                    top_locked_layer == top_locked(s, i as nat),
                decreases self.active_layer_count - i,
            {
                let active_layer = self.active_layers[i];
                assert(s[i as int] == active_layer);
                if active_layer < LAYER_SHIFT_OFFSET {
                    top_locked_layer = Some(active_layer);
                }
                i = i + 1;
            }
            // Shifted entries are passed over, so that a lock key on a
            // shifted layer releases the locked layer with a single tap.
            if top_locked_layer == Some(target_layer) {
                proof {
                    lemma_top_locked_present(s, s.len());
                }
                self.deactivate::<H>(target_layer)
            } else {
                self.activate::<H>(target_layer)
            }
        } else {
            Ok(())
        }
    }

    fn notify<H: EventHandler>() -> (r: Result<(), Error>)
        ensures
            ok_or_hook_error(r),
    {
        match H::on_layer_change() {
            Ok(()) => Ok(()),
            Err(e) => Err(Error::from(e)),
        }
    }
}

} // verus!
