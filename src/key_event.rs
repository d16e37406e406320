//! Key events and their ordered identities.
use vstd::prelude::*;
use crate::key_defs::{Key, KeyAddr, undefined};
use crate::keyswitch_state::KeyswitchState;

verus! {

/// The `i8` that `x` wraps to (two's complement, eight bits).
pub open spec fn wrap_i8(x: int) -> i8 {
    if x % 256 >= 128 {
        (x % 256 - 256) as i8
    } else {
        (x % 256) as i8
    }
}

/// The identity of a physical key event: a wrapping eight-bit counter.
///
/// It is signed on purpose: `b` is later than `a` when `b - a`, wrapped to
/// eight bits, is positive, which keeps working across the wrap.
#[derive(Clone, Copy, Debug, PartialEq, Eq, Structural)]
pub struct KeyEventId(pub i8);

impl KeyEventId {
    /// The identity that follows this one.
    pub open spec fn next_spec(self) -> KeyEventId {
        KeyEventId(wrap_i8(self.0 + 1))
    }

    /// The identity `n` steps after this one.
    pub open spec fn advanced_spec(self, n: nat) -> KeyEventId {
        KeyEventId(wrap_i8(self.0 + n))
    }

    /// Wraparound-aware order: `self` comes after `other`.
    pub open spec fn is_later_than_spec(self, other: KeyEventId) -> bool {
        wrap_i8(self.0 - other.0) > 0
    }

    /// The first identity.
    pub fn default() -> (r: KeyEventId)
        ensures
            r.0 == 0,
    {
        KeyEventId(0)
    }

    /// The identity that follows this one.
    pub fn next(&self) -> (r: KeyEventId)
        ensures
            r == self.next_spec(),
    {
        KeyEventId(self.0.wrapping_add(1))
    }

    /// Wraparound-aware order: `self` comes after `other`.
    pub fn is_later_than(&self, other: &KeyEventId) -> (r: bool)
        ensures
            r == self.is_later_than_spec(*other),
    {
        self.0.wrapping_sub(other.0) > 0
    }
}

/// Stepping once more after `n` steps is stepping `n + 1` times.
pub proof fn lemma_advance_next(start: KeyEventId, n: nat)
    ensures
        start.advanced_spec(n).next_spec() == start.advanced_spec(n + 1),
{
    let a = start.0 as int;
    vstd::arithmetic::div_mod::lemma_add_mod_noop(a + n, 1, 256);
    vstd::arithmetic::div_mod::lemma_add_mod_noop(wrap_i8(a + n) as int, 1, 256);
    vstd::arithmetic::div_mod::lemma_mod_twice(a + n, 256);
    assert(wrap_i8(a + n) as int % 256 == (a + n) % 256) by {
        vstd::arithmetic::div_mod::lemma_fundamental_div_mod(a + n, 256);
        if (a + n) % 256 >= 128 {
            vstd::arithmetic::div_mod::lemma_mod_add_multiples_vanish((a + n) % 256 - 256, 256);
        }
    }
}

/// Each identity comes after the one it follows, and the identities handed
/// out by 256 consecutive steps (any two fewer than 256 steps
/// apart) are pairwise distinct.
pub proof fn lemma_event_ids_ordered(start: KeyEventId, j: nat, k: nat)
    requires
        j < k,
        k - j < 256,
    ensures
        start.advanced_spec(j).next_spec() == start.advanced_spec(j + 1),
        start.advanced_spec(j).next_spec().is_later_than_spec(start.advanced_spec(j)),
        start.advanced_spec(j) != start.advanced_spec(k),
{
    let a = start.0 as int;
    assert(wrap_i8(wrap_i8(a + j) + 1) == wrap_i8(a + j + 1)) by {
        vstd::arithmetic::div_mod::lemma_add_mod_noop(a + j, 1, 256);
        vstd::arithmetic::div_mod::lemma_add_mod_noop(wrap_i8(a + j) as int, 1, 256);
        vstd::arithmetic::div_mod::lemma_mod_twice(a + j, 256);
        assert(wrap_i8(a + j) as int % 256 == (a + j) % 256) by {
            vstd::arithmetic::div_mod::lemma_fundamental_div_mod(a + j, 256);
            if (a + j) % 256 >= 128 {
                vstd::arithmetic::div_mod::lemma_mod_add_multiples_vanish((a + j) % 256 - 256, 256);
            }
        }
    }
    let x = wrap_i8(a + j + 1) as int;
    let y = wrap_i8(a + j) as int;
    assert(wrap_i8(x - y) == 1) by {
        assert(x % 256 == (a + j + 1) % 256) by {
            if (a + j + 1) % 256 >= 128 {
                vstd::arithmetic::div_mod::lemma_mod_add_multiples_vanish((a + j + 1) % 256 - 256, 256);
            }
            vstd::arithmetic::div_mod::lemma_mod_twice(a + j + 1, 256);
        }
        assert(y % 256 == (a + j) % 256) by {
            if (a + j) % 256 >= 128 {
                vstd::arithmetic::div_mod::lemma_mod_add_multiples_vanish((a + j) % 256 - 256, 256);
            }
            vstd::arithmetic::div_mod::lemma_mod_twice(a + j, 256);
        }
        vstd::arithmetic::div_mod::lemma_sub_mod_noop(x, y, 256);
        vstd::arithmetic::div_mod::lemma_sub_mod_noop(a + j + 1, a + j, 256);
    }
    if wrap_i8(a + j) == wrap_i8(a + k) {
        let p = (a + j) % 256;
        let q = (a + k) % 256;
        assert(p == q);
        vstd::arithmetic::div_mod::lemma_sub_mod_noop(a + k, a + j, 256);
        assert((k - j) % 256 == 0) by {
            vstd::arithmetic::div_mod::lemma_mod_self_0(256);
        }
        vstd::arithmetic::div_mod::lemma_small_mod((k - j) as nat, 256);
    }
}

/// Types of events that a key scanner can create for a transition.
pub trait KeyEventOps {
    type Output;
    type KeyAddr;

    /// The event of a transition at `addr`, with the next identity taken
    /// from `last_id`.
    fn next_event(&self, last_id: &mut KeyEventId, addr: Self::KeyAddr, state: KeyswitchState) -> Self::Output;
}

/// One transition of one key.
#[derive(Clone, Copy, Debug, PartialEq, Eq, Structural)]
pub struct KeyEvent {
    pub addr: KeyAddr,
    pub state: KeyswitchState,
    pub key: Key,
    pub last_id: KeyEventId,
    pub id: KeyEventId,
}

impl KeyEvent {
    /// An event with no address and no state, carrying the last identity
    /// handed out.
    pub fn new(last_id: KeyEventId) -> (r: KeyEvent)
        ensures
            !r.addr.is_valid_spec(),
            r.state.0 == 0,
            r.key == undefined(),
            r.last_id.0 == 0,
            r.id == last_id,
    {
        KeyEvent {
            addr: KeyAddr::default(),
            state: KeyswitchState::default(),
            key: Key::undefined(),
            last_id: KeyEventId::default(),
            id: last_id,
        }
    }

    /// The event of a physical transition: takes the next identity from
    /// `last_id`, which then holds it.
    pub fn next(last_id: &mut KeyEventId, addr: KeyAddr, state: KeyswitchState) -> (r: KeyEvent)
        ensures
            *final(last_id) == old(last_id).next_spec(),
            r.id == *final(last_id),
            r.addr == addr,
            r.state == state,
            r.key == undefined(),
            r.last_id.0 == 0,
    {
        let id = last_id.next();
        *last_id = id;
        KeyEvent { addr, state, key: Key::undefined(), last_id: KeyEventId::default(), id }
    }

    pub fn addr(&self) -> (r: KeyAddr)
        ensures
            r == self.addr,
    {
        self.addr
    }

    pub fn state(&self) -> (r: KeyswitchState)
        ensures
            r == self.state,
    {
        self.state
    }

    pub fn key(&self) -> (r: Key)
        ensures
            r == self.key,
    {
        self.key
    }

    pub fn set_key(&mut self, key: Key)
        ensures
            *final(self) == (KeyEvent { key, ..*old(self) }),
    {
        self.key = key;
    }

    pub fn last_id(&self) -> (r: KeyEventId)
        ensures
            r == self.last_id,
    {
        self.last_id
    }

    pub fn id(&self) -> (r: KeyEventId)
        ensures
            r == self.id,
    {
        self.id
    }
}

impl KeyEventOps for KeyEvent {
    type Output = KeyEvent;
    type KeyAddr = KeyAddr;

    fn next_event(&self, last_id: &mut KeyEventId, addr: KeyAddr, state: KeyswitchState) -> KeyEvent {
        KeyEvent::next(last_id, addr, state)
    }
}

} // verus!
