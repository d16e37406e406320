//! The event pipeline: from a keyswitch transition to HID reports.
use vstd::prelude::*;
use crate::error::Error;
use crate::event_handler::{EventHandler, EventHandlerError};
use crate::hid::{
    ActiveKeyboard, HidView, Keyboardio, active_codes, is_key_pressed_spec, pressed_system,
    released_all, released_system, sent_report, with_code, with_modifiers,
};
use crate::key_defs::{
    Key, KeyAddr, KEYCODE_LEFT_CONTROL, inactive, masked, no_key, transparent, undefined,
};
use crate::key_event::{KeyEvent, KeyEventId};
use crate::layers::{Keymap, Layer, layer_key_live, layer_key_stack, ok_or_hook_error};
use crate::live_keys::LiveKeys;

verus! {

/// A key whose event ends before the layer and report stages: masked,
/// no key, undefined or transparent.
pub open spec fn is_inert(key: Key) -> bool {
    key == masked() || key == no_key() || key == undefined() || key == transparent()
}

/// The key that goes into a report for a live entry: a mod-layer key
/// stands for its modifier, and a plain keyboard key that is not a
/// modifier loses its flags.
pub open spec fn report_key(key: Key) -> Key {
    let k = if key.is_mod_layer_key_spec() {
        Key { key_code: (KEYCODE_LEFT_CONTROL + key.key_code % 8) as u8, flags: 0 }
    } else {
        key
    };
    if k.is_keyboard_key_spec() && !k.is_keyboard_modifier_spec() {
        Key { flags: 0, ..k }
    } else {
        k
    }
}

/// The reports after adding `key`: a keyboard key is pressed with its
/// modifiers, a consumer-control key sets its usage, others add nothing.
pub open spec fn added_to_report(v: HidView, key: Key) -> HidView {
    let k = report_key(key);
    if k.is_keyboard_key_spec() {
        with_code(with_modifiers(v, k.flags, true), k.key_code, true)
    } else if k.is_consumer_control_key_spec() {
        HidView { consumer: v.consumer.update((k.consumer_spec() % 256) as int, true), ..v }
    } else {
        v
    }
}

proof fn lemma_code_keeps_sent(v: HidView, code: u8, on: bool)
    ensures
        with_code(v, code, on).sent == v.sent,
        with_code(v, code, on).active == v.active,
{
}

proof fn lemma_modifiers_keep_sent(v: HidView, flags: u8, on: bool)
    ensures
        with_modifiers(v, flags, on).sent == v.sent,
        with_modifiers(v, flags, on).active == v.active,
{
}

proof fn lemma_added_keeps_sent(v: HidView, key: Key)
    ensures
        added_to_report(v, key).sent == v.sent,
        added_to_report(v, key).active == v.active,
{
    lemma_modifiers_keep_sent(v, report_key(key).flags, true);
}

/// Whether a hook result lets the library go on: anything but an abort.
pub open spec fn accepts(hook: Result<(), EventHandlerError>) -> bool {
    hook != Err::<(), EventHandlerError>(EventHandlerError::Abort)
}

/// The veto flags of the add-to-report hook results, one per address.
pub open spec fn accepted_by(hooks: Seq<Result<(), EventHandlerError>>) -> Seq<bool> {
    Seq::new(hooks.len(), |i: int| accepts(hooks[i]))
}

/// The reports after rebuilding from the first `n` live `entries`: the
/// active report emptied, then the key of every active entry added, except
/// at address `skip` and where `accepted` says the add-to-report hooks
/// vetoed it.
pub open spec fn prepared_report(
    v: HidView,
    entries: Seq<Key>,
    skip: KeyAddr,
    accepted: Seq<bool>,
    n: nat,
) -> HidView
    decreases n,
{
    if n == 0 {
        released_all(v)
    } else {
        let prev = prepared_report(v, entries, skip, accepted, (n - 1) as nat);
        let i = n - 1;
        let k = entries[i];
        if i == skip.index_spec() || k == inactive() || k == masked() || !accepted[i] {
            prev
        } else {
            added_to_report(prev, k)
        }
    }
}

/// The reports after `send_keyboard_report` for `event`, given the live
/// keys `live` and the last address pressed `last`; `added` tells whether
/// the add-to-report hooks let the event's key in, `reported` whether the
/// pre-report hooks let the final report go.
pub open spec fn sent_keyboard_report(
    v: HidView,
    live: LiveKeys,
    last: KeyAddr,
    event: KeyEvent,
    added: bool,
    reported: bool,
) -> HidView {
    let key = event.key;
    let on = event.state.toggled_on_spec();
    let v1 = if on && key.is_keyboard_key_spec() {
        rollover_guarded(v, key)
    } else if event.addr != last && live.get_spec(last).is_keyboard_key_spec() {
        with_modifiers(v, live.get_spec(last).flags, true)
    } else {
        v
    };
    let v2 = if on && added {
        added_to_report(v1, key)
    } else {
        v1
    };
    if reported {
        sent_report(v2)
    } else {
        v2
    }
}

/// The reports before the press of keyboard key `key` is added: a report
/// without its keycode is sent if the keycode is in, then a report with
/// its modifiers if it has any.
pub open spec fn rollover_guarded(v: HidView, key: Key) -> HidView {
    let a = if is_key_pressed_spec(v, key) {
        sent_report(with_code(with_modifiers(v, key.flags, false), key.key_code, false))
    } else {
        v
    };
    if key.flags != 0 {
        sent_report(with_modifiers(a, key.flags, true))
    } else {
        a
    }
}

/// Releasing a key whose live entry is already inactive rewrites that
/// entry with the same value: when the key it resolves to is inert, the
/// rest of `apply_key_event` changes nothing either, so such a release
/// leaves the live keys, the layers and the reports as they were.
pub proof fn lemma_release_of_inactive_key(live: LiveKeys, addr: KeyAddr)
    requires
        live.wf(),
        addr.is_valid_spec(),
        live.get_spec(addr) == inactive(),
    ensures
        live.with(addr, inactive()) == live.entries(),
{
    assert(live.with(addr, inactive()) =~= live.entries());
}

/// Writing an entry with the value it holds changes nothing.
proof fn lemma_with_current(live: LiveKeys, addr: KeyAddr)
    requires
        live.wf(),
    ensures
        live.with(addr, live.get_spec(addr)) == live.entries(),
{
    assert(live.with(addr, live.get_spec(addr)) =~= live.entries());
}

/// A second write at the same address replaces the first.
proof fn lemma_with_twice(live: LiveKeys, addr: KeyAddr)
    requires
        live.wf(),
    ensures
        forall|a: Key, b: Key|
            #![trigger live.with(addr, a).update(addr.index_spec(), b)]
            addr.is_valid_spec() ==> live.with(addr, a).update(addr.index_spec(), b) == live.with(
                addr,
                b,
            ),
        forall|a: Key| #![trigger live.with(addr, a)] !addr.is_valid_spec() ==> live.with(addr, a) == live.entries(),
{
    assert forall|a: Key, b: Key| addr.is_valid_spec() implies live.with(addr, a).update(
        addr.index_spec(),
        b,
    ) == live.with(addr, b) by {
        assert(live.with(addr, a).update(addr.index_spec(), b) =~= live.with(addr, b));
    }
}

/// What a logical key event does, given the key-event hooks' `result`
/// and the event as they leave it: the contract of
/// [`Runtime::apply_key_event`].
///
/// An abort leaves everything as it was. Otherwise the live entry of a
/// valid address is cleared on release and set to the key on press (a
/// next/previous-keymap key may then rewrite it); a release of an entry
/// that is already inactive leaves the live keys as they were. A hook
/// error or an inert key ends there. A layer key changes the stack and no
/// report; a system-control key its own report; any other key rebuilds
/// and sends the reports, up to the add-to-report and pre-report hooks'
/// vetoes.
pub open spec fn key_event_applied(
    old: Runtime,
    new: Runtime,
    event: KeyEvent,
    result: Result<(), EventHandlerError>,
) -> bool {
    let write = if event.state.toggled_off_spec() {
        inactive()
    } else {
        event.key
    };
    let layer_like = event.key.is_layer_key_spec() || event.key.is_mod_layer_key_spec();
    let live_rewrite = layer_key_live(
        old.layers().stack(),
        old.layers().layer_count_spec(),
        event,
    );
    &&& new.last_event_id_spec() == old.last_event_id_spec()
    &&& new.layers().same_config(&old.layers())
    &&& new.live().dummy() == old.live().dummy()
    &&& exists|k: Key| new.live().entries() == old.live().with(event.addr, k)
    &&& (!accepts(result) ==> new == old)
    &&& (accepts(result) && (result is Err || is_inert(event.key)) ==> {
        &&& new.live().entries() == old.live().with(event.addr, write)
        &&& new.layers() == old.layers()
        &&& new.reports() == old.reports()
    })
    &&& (accepts(result) && !layer_like ==> new.live().entries() == old.live().with(event.addr, write))
    &&& (accepts(result) && layer_like ==> {
        ||| new.live().entries() == old.live().with(event.addr, write)
        ||| result is Ok && !is_inert(event.key) && live_rewrite is Some
            && new.live().entries() == old.live().with(event.addr, live_rewrite->0)
    })
    &&& (accepts(result) && event.addr.is_valid_spec() && event.state.toggled_off_spec()
        && old.live().get_spec(event.addr) == inactive() ==> {
        &&& new.live().entries() == old.live().entries()
        &&& !layer_like ==> new.layers() == old.layers()
    })
    &&& (result is Ok && !is_inert(event.key) && layer_like ==> new.layers().stack()
        == layer_key_stack(old.layers().stack(), old.layers().layer_count_spec(), event))
    &&& (result is Ok && !is_inert(event.key) && event.key.is_layer_key_spec() ==> new.reports()
        == old.reports())
    &&& (result is Ok && !is_inert(event.key) && !layer_like ==> new.layers() == old.layers())
    &&& (result is Ok && !is_inert(event.key) && event.key.is_system_control_key_spec()
        && !layer_like ==> new.reports() == (if event.state.toggled_on_spec() {
        pressed_system(old.reports(), event.key)
    } else {
        released_system(old.reports(), event.key)
    }))
    &&& (result is Ok && !is_inert(event.key) && !event.key.is_system_control_key_spec()
        && !layer_like ==> exists|accepted: Seq<bool>, added: bool, reported: bool|
        accepted.len() == 48 && new.reports() == sent_keyboard_report(
            prepared_report(old.reports(), new.live().entries(), event.addr, accepted, 48),
            new.live(),
            old.last_addr_toggled_on_spec(),
            event,
            added,
            reported,
        ))
}

/// What a physical keyswitch event does: the contract of
/// [`Runtime::handle_keyswitch_event`]. Events without a valid address and
/// states that are not a transition change nothing; the release of a
/// masked key only clears its live entry; any other transition either ends
/// at the keyswitch hooks with nothing changed, or goes on as a logical key
/// event (see [`key_event_applied`]).
pub open spec fn keyswitch_handled(old: Runtime, new: Runtime, event: KeyEvent) -> bool {
    let transition = event.state.toggled_on_spec() || event.state.toggled_off_spec();
    let masked_release = event.state.toggled_off_spec() && old.live().get_spec(event.addr)
        == masked();
    &&& new.last_event_id_spec() == old.last_event_id_spec()
    &&& (!event.addr.is_valid_spec() || !transition ==> new == old)
    &&& (event.addr.is_valid_spec() && masked_release ==> {
        &&& new.live().entries() == old.live().with(event.addr, inactive())
        &&& new.live().dummy() == old.live().dummy()
        &&& new.layers() == old.layers()
        &&& new.reports() == old.reports()
    })
    &&& (event.addr.is_valid_spec() && transition && !masked_release ==> new == old || exists|
        e: KeyEvent,
        r: Result<(), EventHandlerError>,
    | key_event_applied(old, new, e, r))
}

/// `new` is `old` after [`Runtime::next_event`] took the next identity.
pub open spec fn id_taken(old: Runtime, new: Runtime) -> bool {
    &&& new.last_event_id_spec() == old.last_event_id_spec().next_spec()
    &&& new.live() == old.live()
    &&& new.layers() == old.layers()
    &&& new.reports() == old.reports()
}

/// The firmware state that events act on.
pub struct Runtime {
    live_keys: LiveKeys,
    layer: Layer,
    hid: Keyboardio,
    millis_at_cycle_start: u32,
    last_addr_toggled_on: KeyAddr,
    has_leds: bool,
    last_event_id: KeyEventId,
}

impl Runtime {
    pub closed spec fn live(&self) -> LiveKeys {
        self.live_keys
    }

    pub closed spec fn layers(&self) -> Layer {
        self.layer
    }

    pub closed spec fn reports(&self) -> HidView {
        self.hid@
    }

    pub closed spec fn last_addr_toggled_on_spec(&self) -> KeyAddr {
        self.last_addr_toggled_on
    }

    pub closed spec fn millis_spec(&self) -> u32 {
        self.millis_at_cycle_start
    }

    pub closed spec fn has_leds_spec(&self) -> bool {
        self.has_leds
    }

    pub closed spec fn last_event_id_spec(&self) -> KeyEventId {
        self.last_event_id
    }

    pub closed spec fn hid_wf(&self) -> bool {
        self.hid.wf()
    }

    pub open spec fn wf(&self) -> bool {
        &&& self.live().wf()
        &&& self.layers().wf()
        &&& self.hid_wf()
    }

    /// The key `lookup_key` gives at `addr`: the live entry, unless it is
    /// transparent (not active), then the key of the active layers.
    pub open spec fn lookup_key_spec(&self, addr: KeyAddr) -> Key {
        if self.live().get_spec(addr) == transparent() {
            if addr.is_valid_spec() {
                self.layers().lookup_spec(addr)
            } else {
                no_key()
            }
        } else {
            self.live().get_spec(addr)
        }
    }

    /// Fresh state over `keymap`: base layer only, live keys undefined, an
    /// empty boot report active.
    pub fn new(keymap: Keymap, led_count: usize) -> (r: Runtime)
        ensures
            r.wf(),
            r.layers().stack() == seq![0u8],
            r.layers().keymap() == keymap,
            forall|i: int| 0 <= i < r.live().entries().len() ==> #[trigger] r.live().entries()[i]
                == undefined(),
            r.reports().active == ActiveKeyboard::Boot,
            r.reports().sent.len() == 0,
            !r.last_addr_toggled_on_spec().is_valid_spec(),
            r.millis_spec() == 0,
            r.has_leds_spec() == (led_count > 0),
            r.last_event_id_spec().0 == 0,
    {
        Runtime {
            live_keys: LiveKeys::new(),
            layer: Layer::new(keymap),
            hid: Keyboardio::new(ActiveKeyboard::Boot),
            millis_at_cycle_start: 0,
            last_addr_toggled_on: KeyAddr::default(),
            has_leds: led_count > 0,
            last_event_id: KeyEventId::default(),
        }
    }

    /// Runs the setup hooks, then clears every live key and recomputes the
    /// layer cache. A hook error stops setup with nothing changed.
    pub fn setup<H: EventHandler>(&mut self) -> (r: Result<(), Error>)
        requires
            old(self).wf(),
        ensures
            final(self).wf(),
            r is Err ==> *final(self) == *old(self) && r->Err_0.is_event_kind(),
            r is Ok ==> forall|i: int|
                0 <= i < final(self).live().entries().len() ==> #[trigger] final(self).live().entries()[i] == inactive(),
            final(self).layers().stack() == old(self).layers().stack(),
            final(self).reports() == old(self).reports(),
    {
        match H::on_setup() {
            Ok(()) => {},
            Err(e) => {
                return Err(Error::from(e));
            },
        }
        self.live_keys.clear_all();
        self.layer.setup();
        Ok(())
    }

    /// The key at `key_addr`: the live entry, which plugins may have set,
    /// unless it is not active; then the key of the active layers. An
    /// address out of range reads the dummy cell, and no key where that
    /// cell is not active.
    pub fn lookup_key(&self, key_addr: &KeyAddr) -> (r: Key)
        requires
            self.wf(),
        ensures
            r == self.lookup_key_spec(*key_addr),
    {
        let key = self.live_keys.get(*key_addr);
        if key == Key::transparent() {
            if key_addr.is_valid() {
                self.layer.lookup_on_active_layer(key_addr)
            } else {
                Key::no_key()
            }
        } else {
            key
        }
    }

    /// The key that the keyswitch hooks receive for a physical transition:
    /// on release the live entry; on press the key of `lookup_key` if the
    /// event's key is still undefined, else the event's key.
    pub fn keyswitch_event_key(&self, event: &KeyEvent) -> (r: Key)
        requires
            self.wf(),
        ensures
            r == (if event.state.toggled_off_spec() {
                self.live().get_spec(event.addr)
            } else if event.key == undefined() {
                self.lookup_key_spec(event.addr)
            } else {
                event.key
            }),
    {
        if event.state().key_toggled_off() {
            self.live_keys.get(event.addr())
        } else if event.key() == Key::undefined() {
            self.lookup_key(&event.addr())
        } else {
            event.key()
        }
    }

    /// The key that the key-event hooks receive: for a valid address, the
    /// key of `lookup_key` on release or while the key is undefined;
    /// otherwise the event's key.
    pub fn key_event_key(&self, event: &KeyEvent) -> (r: Key)
        requires
            self.wf(),
        ensures
            r == (if event.addr.is_valid_spec() && (event.state.toggled_off_spec() || event.key
                == undefined()) {
                self.lookup_key_spec(event.addr)
            } else {
                event.key
            }),
    {
        if event.addr().is_valid() && (event.state().key_toggled_off() || event.key()
            == Key::undefined()) {
            self.lookup_key(&event.addr())
        } else {
            event.key()
        }
    }

    /// Handles a physical keyswitch transition.
    ///
    /// Events without a valid address, and states that are not a
    /// transition, are dropped. The release of a masked key only clears
    /// its live entry. A press whose key is still undefined gets the key of
    /// `lookup_key`. The keyswitch hooks then run; if they all accept, the
    /// event goes on as a logical key event.
    pub fn handle_keyswitch_event<H: EventHandler>(&mut self, event: KeyEvent)
        requires
            old(self).wf(),
        ensures
            final(self).last_event_id_spec() == old(self).last_event_id_spec(),
            final(self).wf(),
            exists|a: KeyAddr, k: Key| final(self).live().entries() == old(self).live().with(a, k),
            final(self).live().dummy() == old(self).live().dummy(),
            final(self).layers().same_config(&old(self).layers()),
            !event.addr.is_valid_spec() || !(event.state.toggled_on_spec()
                || event.state.toggled_off_spec()) ==> *final(self) == *old(self),
            event.addr.is_valid_spec() && event.state.toggled_off_spec() && old(self).live().get_spec(
                event.addr,
            ) == masked() ==> {
                &&& final(self).live().entries() == old(self).live().with(event.addr, inactive())
                &&& final(self).live().dummy() == old(self).live().dummy()
                &&& final(self).layers() == old(self).layers()
                &&& final(self).reports() == old(self).reports()
                &&& final(self).last_addr_toggled_on_spec() == old(self).last_addr_toggled_on_spec()
            },
            event.addr.is_valid_spec() && (event.state.toggled_on_spec() || event.state.toggled_off_spec())
                && !(event.state.toggled_off_spec() && old(self).live().get_spec(event.addr) == masked())
                ==> *final(self) == *old(self) || exists|e: KeyEvent, r: Result<(), EventHandlerError>|
                key_event_applied(*old(self), *final(self), e, r),
            keyswitch_handled(*old(self), *final(self), event),
    {
        proof {
            lemma_with_current(self.live(), event.addr);
        }
        let mut event = event;
        if !event.addr().is_valid() {
            return;
        }
        if !(event.state().key_toggled_on() || event.state().key_toggled_off()) {
            return;
        }
        let key = self.keyswitch_event_key(&event);
        event.set_key(key);
        if event.state().key_toggled_off() && key == Key::masked() {
            self.live_keys.clear(event.addr());
            return;
        }
        let hook = H::on_keyswitch_event(&mut event);
        let r = self.continue_keyswitch_event::<H>(&mut event, hook);
        assert(hook is Err || key_event_applied(*old(self), *self, event, r));
    }

    /// Handles a logical key event: looks up its key where needed (see
    /// [`Runtime::key_event_key`]), runs the key-event hooks, and hands the
    /// event as they leave it and their result to
    /// [`Runtime::apply_key_event`]. Returns the hooks' result.
    pub fn handle_key_event<H: EventHandler>(&mut self, event: &mut KeyEvent) -> (r: Result<
        (),
        EventHandlerError,
    >)
        requires
            old(self).wf(),
        ensures
            final(self).wf(),
            key_event_applied(*old(self), *final(self), *final(event), r),
    {
        let key = self.key_event_key(event);
        event.set_key(key);
        let result = H::on_key_event(event);
        self.apply_key_event::<H>(event, result);
        result
    }

    /// The part of a physical keyswitch event that follows the keyswitch
    /// hooks, given their result `hook`: an error of theirs ends the event
    /// with nothing changed; otherwise it goes on as a logical key event,
    /// whose key-event hooks' result is returned.
    pub fn continue_keyswitch_event<H: EventHandler>(
        &mut self,
        event: &mut KeyEvent,
        hook: Result<(), EventHandlerError>,
    ) -> (r: Result<(), EventHandlerError>)
        requires
            old(self).wf(),
        ensures
            final(self).wf(),
            hook is Err ==> *final(self) == *old(self) && *final(event) == *old(event) && r == hook,
            hook is Ok ==> key_event_applied(*old(self), *final(self), *final(event), r),
    {
        if hook.is_err() {
            return hook;
        }
        self.handle_key_event::<H>(event)
    }

    /// The part of a logical key event that follows the key-event hooks,
    /// given their `result`: see [`key_event_applied`].
    pub fn apply_key_event<H: EventHandler>(
        &mut self,
        event: &KeyEvent,
        result: Result<(), EventHandlerError>,
    )
        requires
            old(self).wf(),
        ensures
            final(self).wf(),
            key_event_applied(*old(self), *final(self), *event, result),
    {
        self.apply_stage::<H>(event, result);
    }

    fn apply_stage<H: EventHandler>(
        &mut self,
        event: &KeyEvent,
        result: Result<(), EventHandlerError>,
    )
        requires
            old(self).wf(),
        ensures
            final(self).last_event_id_spec() == old(self).last_event_id_spec(),
            final(self).wf(),
            final(self).layers().same_config(&old(self).layers()),
            final(self).live().dummy() == old(self).live().dummy(),
            exists|k: Key| final(self).live().entries() == old(self).live().with(event.addr, k),
            !accepts(result) ==> *final(self) == *old(self),
            accepts(result) && (result is Err || is_inert(event.key)) ==> {
                &&& final(self).live().entries() == old(self).live().with(event.addr, if event.state.toggled_off_spec() { inactive() } else { event.key })
                &&& final(self).layers() == old(self).layers()
                &&& final(self).reports() == old(self).reports()
            },
            accepts(result) && !event.key.is_layer_key_spec() && !event.key.is_mod_layer_key_spec()
                ==> final(self).live().entries() == old(self).live().with(event.addr, if event.state.toggled_off_spec() { inactive() } else { event.key }),
            accepts(result) && (event.key.is_layer_key_spec() || event.key.is_mod_layer_key_spec()) ==> {
                ||| final(self).live().entries() == old(self).live().with(event.addr, if event.state.toggled_off_spec() { inactive() } else { event.key })
                ||| result is Ok && !is_inert(event.key) && layer_key_live(old(self).layers().stack(), old(self).layers().layer_count_spec(), *event) is Some
                    && final(self).live().entries() == old(self).live().with(event.addr, layer_key_live(old(self).layers().stack(), old(self).layers().layer_count_spec(), *event)->0)
            },
            accepts(result) && event.addr.is_valid_spec() && event.state.toggled_off_spec()
                && old(self).live().get_spec(event.addr) == inactive() ==> {
                &&& final(self).live().entries() == old(self).live().entries()
                &&& !(event.key.is_layer_key_spec() || event.key.is_mod_layer_key_spec()) ==> final(self).layers() == old(self).layers()
            },
            result is Ok && !is_inert(event.key) && (event.key.is_layer_key_spec() || event.key.is_mod_layer_key_spec())
                ==> final(self).layers().stack() == layer_key_stack(old(self).layers().stack(), old(self).layers().layer_count_spec(), *event),
            result is Ok && !is_inert(event.key) && event.key.is_layer_key_spec() ==> final(self).reports() == old(self).reports(),
            result is Ok && !is_inert(event.key) && !(event.key.is_layer_key_spec() || event.key.is_mod_layer_key_spec())
                ==> final(self).layers() == old(self).layers(),
            result is Ok && !is_inert(event.key) && event.key.is_system_control_key_spec()
                && !(event.key.is_layer_key_spec() || event.key.is_mod_layer_key_spec()) ==> final(self).reports() == (if event.state.toggled_on_spec() {
                pressed_system(old(self).reports(), event.key)
            } else {
                released_system(old(self).reports(), event.key)
            }),
            result is Ok && !is_inert(event.key) && !event.key.is_system_control_key_spec()
                && !(event.key.is_layer_key_spec() || event.key.is_mod_layer_key_spec()) ==> exists|accepted: Seq<bool>, added: bool, reported: bool|
                accepted.len() == 48 && final(self).reports() == sent_keyboard_report(
                    prepared_report(old(self).reports(), final(self).live().entries(), event.addr, accepted, 48),
                    final(self).live(),
                    old(self).last_addr_toggled_on_spec(),
                    *event,
                    added,
                    reported,
                ),
    {
        if let Err(EventHandlerError::Abort) = result {
            proof {
                lemma_with_current(self.live(), event.addr);
                assert(self.live().entries() == old(self).live().with(
                    event.addr,
                    old(self).live().get_spec(event.addr),
                ));
            }
            return;
        }
        if event.addr().is_valid() {
            if event.state().key_toggled_off() {
                self.live_keys.clear(event.addr());
            } else {
                self.live_keys.activate(event.addr(), event.key());
            }
        }
        proof {
            if event.addr.is_valid_spec() && event.state.toggled_off_spec()
                && old(self).live().get_spec(event.addr) == inactive() {
                lemma_release_of_inactive_key(old(self).live(), event.addr);
            }
        }
        let key = event.key();
        if result.is_err() || key == Key::masked() || key == Key::no_key() || key
            == Key::undefined() || key == Key::transparent() {
            proof {
                if event.addr.is_valid_spec() && event.state.toggled_off_spec()
                    && old(self).live().get_spec(event.addr) == inactive() {
                    lemma_release_of_inactive_key(old(self).live(), event.addr);
                }
            }
            return;
        }
        let ghost live1 = self.live();
        assert(live1.entries() == old(self).live().with(event.addr, live1.get_spec(event.addr))) by {
            lemma_with_twice(old(self).live(), event.addr);
        }
        if key.is_layer_key() || key.is_mod_layer_key() {
            let r = self.layer.handle_layer_key_event::<H>(&mut self.live_keys, *event);
            proof {
                lemma_with_twice(old(self).live(), event.addr);
                lemma_with_twice(live1, event.addr);
            }
            if r.is_err() {
                return;
            }
        }
        if key.is_layer_key() {
            return;
        }
        if key.is_system_control_key() {
            if event.state().key_toggled_on() {
                self.hid.press_system_control(key);
            } else {
                self.hid.release_system_control(key);
            }
            return;
        }
        let ghost v0 = self.reports();
        let ghost live1 = self.live();
        let ghost last0 = self.last_addr_toggled_on_spec();
        self.prepare_keyboard_report::<H>(event);
        let ghost acc = choose|acc: Seq<bool>|
            acc.len() == 48 && self.reports() == prepared_report(
                v0,
                live1.entries(),
                event.addr,
                acc,
                48,
            );
        let ghost v1 = self.reports();
        self.send_keyboard_report::<H>(event);
        let ghost (added, reported) = choose|added: bool, reported: bool|
            self.reports() == sent_keyboard_report(v1, live1, last0, *event, added, reported);
        assert(v0 == old(self).reports());
        assert(last0 == old(self).last_addr_toggled_on_spec());
        assert(acc.len() == 48 && self.reports() == sent_keyboard_report(
            prepared_report(old(self).reports(), self.live().entries(), event.addr, acc, 48),
            self.live(),
            old(self).last_addr_toggled_on_spec(),
            *event,
            added,
            reported,
        ));
        let _ = H::after_reporting_state(event);
    }

    /// Rebuilds the reports from the live keys: runs the add-to-report
    /// hooks on the key of every active entry but the event's own address,
    /// then hands their results to [`Runtime::build_keyboard_report`].
    pub fn prepare_keyboard_report<H: EventHandler>(&mut self, event: &KeyEvent)
        requires
            old(self).wf(),
        ensures
            final(self).last_event_id_spec() == old(self).last_event_id_spec(),
            final(self).wf(),
            final(self).live() == old(self).live(),
            final(self).layers() == old(self).layers(),
            final(self).last_addr_toggled_on_spec() == old(self).last_addr_toggled_on_spec(),
            exists|accepted: Seq<bool>|
                accepted.len() == 48 && final(self).reports() == prepared_report(
                    old(self).reports(),
                    old(self).live().entries(),
                    event.addr,
                    accepted,
                    48,
                ),
    {
        let mut hooks: Vec<Result<(), EventHandlerError>> = Vec::new();
        let mut i: u8 = 0;
        while i < 48
            invariant
                i <= 48,
                hooks@.len() == i,
                self.wf(),
            decreases 48 - i,
        {
            let key_addr = KeyAddr::new(i);
            let key = self.live_keys.get(key_addr);
            if key_addr == event.addr() || key == Key::inactive() || key == Key::masked() {
                hooks.push(Ok(()));
            } else {
                hooks.push(H::on_add_to_report(key));
            }
            i = i + 1;
        }
        self.build_keyboard_report(event, &hooks);
        assert(accepted_by(hooks@).len() == 48);
    }

    /// Rebuilds the reports from the live keys, given the add-to-report
    /// hooks' result for each address: empties the active report, then adds
    /// the key of every active entry but the event's own address, except
    /// where the hook result is an abort.
    pub fn build_keyboard_report(
        &mut self,
        event: &KeyEvent,
        hooks: &Vec<Result<(), EventHandlerError>>,
    )
        requires
            old(self).wf(),
            hooks@.len() == 48,
        ensures
            final(self).last_event_id_spec() == old(self).last_event_id_spec(),
            final(self).wf(),
            final(self).live() == old(self).live(),
            final(self).layers() == old(self).layers(),
            final(self).last_addr_toggled_on_spec() == old(self).last_addr_toggled_on_spec(),
            final(self).reports() == prepared_report(
                old(self).reports(),
                old(self).live().entries(),
                event.addr,
                accepted_by(hooks@),
                48,
            ),
    {
        let _ = self.hid.release_all_keys();
        let ghost v0 = old(self).reports();
        let ghost entries = self.live().entries();
        let ghost acc = accepted_by(hooks@);
        let mut i: u8 = 0;
        while i < 48
            invariant
                self.wf(),
                i <= 48,
                hooks@.len() == 48,
                acc == accepted_by(hooks@),
                self.live() == old(self).live(),
                entries == old(self).live().entries(),
                self.layers() == old(self).layers(),
                self.last_addr_toggled_on == old(self).last_addr_toggled_on,
                self.last_event_id == old(self).last_event_id,
                self.reports() == prepared_report(v0, entries, event.addr, acc, i as nat),
            decreases 48 - i,
        {
            let key_addr = KeyAddr::new(i);
            let idx = i as usize;
            i = i + 1;
            if key_addr == event.addr() {
                continue;
            }
            let key = self.live_keys.get(key_addr);
            if key == Key::inactive() || key == Key::masked() {
                continue;
            }
            self.add_to_report_with(key, hooks[idx]);
        }
    }

    /// Adds `key` to the reports, unless the add-to-report hooks abort.
    pub fn add_to_report<H: EventHandler>(&mut self, key: Key)
        requires
            old(self).wf(),
        ensures
            final(self).last_event_id_spec() == old(self).last_event_id_spec(),
            final(self).wf(),
            final(self).reports() == old(self).reports() || final(self).reports()
                == added_to_report(old(self).reports(), key),
            final(self).live() == old(self).live(),
            final(self).layers() == old(self).layers(),
            final(self).last_addr_toggled_on_spec() == old(self).last_addr_toggled_on_spec(),
    {
        let hook = H::on_add_to_report(key);
        self.add_to_report_with(key, hook);
    }

    /// Adds `key` to the reports, given the add-to-report hooks' result:
    /// nothing on an abort. A mod-layer key stands for its modifier; a
    /// keyboard key that is not a modifier loses its flags.
    pub fn add_to_report_with(&mut self, key: Key, hook: Result<(), EventHandlerError>)
        requires
            old(self).wf(),
        ensures
            final(self).last_event_id_spec() == old(self).last_event_id_spec(),
            final(self).wf(),
            final(self).reports() == (if accepts(hook) {
                added_to_report(old(self).reports(), key)
            } else {
                old(self).reports()
            }),
            final(self).live() == old(self).live(),
            final(self).layers() == old(self).layers(),
            final(self).last_addr_toggled_on_spec() == old(self).last_addr_toggled_on_spec(),
    {
        if let Err(EventHandlerError::Abort) = hook {
            return;
        }
        self.add_key(key);
    }

    fn add_key(&mut self, key: Key)
        requires
            old(self).wf(),
        ensures
            final(self).wf(),
            final(self).reports() == added_to_report(old(self).reports(), key),
            final(self).live() == old(self).live(),
            final(self).layers() == old(self).layers(),
            final(self).last_addr_toggled_on == old(self).last_addr_toggled_on,
            final(self).millis_at_cycle_start == old(self).millis_at_cycle_start,
            final(self).last_event_id == old(self).last_event_id,
    {
        let mut key = key;
        if key.is_mod_layer_key() {
            let modifier = key.key_code() % 8;
            key = Key::new(KEYCODE_LEFT_CONTROL + modifier, 0);
        }
        if key.is_keyboard_key() {
            // Only the key that generated the event may carry incidental
            // modifiers; those of the others are stripped.
            if !key.is_keyboard_modifier() {
                key.set_flags(0);
            }
            self.hid.press_key(key);
            return;
        }
        if key.is_consumer_control_key() {
            self.hid.press_consumer_control(key);
        }
    }

    /// Sends the reports of an event: runs the add-to-report hooks on the
    /// event's key (on press) and the pre-report hooks, then hands their
    /// results to [`Runtime::send_keyboard_report_with`].
    pub fn send_keyboard_report<H: EventHandler>(&mut self, event: &KeyEvent)
        requires
            old(self).wf(),
        ensures
            final(self).last_event_id_spec() == old(self).last_event_id_spec(),
            final(self).wf(),
            final(self).live() == old(self).live(),
            final(self).layers() == old(self).layers(),
            exists|added: bool, reported: bool|
                final(self).reports() == sent_keyboard_report(
                    old(self).reports(),
                    old(self).live(),
                    old(self).last_addr_toggled_on_spec(),
                    *event,
                    added,
                    reported,
                ),
            final(self).last_addr_toggled_on_spec() == (if event.state.toggled_on_spec()
                && event.key.is_keyboard_key_spec() {
                event.addr
            } else {
                old(self).last_addr_toggled_on_spec()
            }),
    {
        let add_hook = if event.state().key_toggled_on() {
            H::on_add_to_report(event.key())
        } else {
            Ok(())
        };
        let pre_report = H::before_reporting_state(event);
        self.send_keyboard_report_with(event, add_hook, pre_report);
        assert(self.reports() == sent_keyboard_report(
            old(self).reports(),
            old(self).live(),
            old(self).last_addr_toggled_on_spec(),
            *event,
            accepts(add_hook),
            accepts(pre_report),
        ));
    }

    /// Sends the reports of an event, guarding against rollover.
    ///
    /// On the press of a keyboard key its address is recorded. If its
    /// keycode is already in the active report, a report without it is
    /// sent first, so the host sees a release and then a press. If it
    /// carries modifier flags, they are pressed and sent in a report before
    /// the keycode. Otherwise, for an event at another address than the
    /// last one pressed, the modifiers of that last key are pressed again.
    /// The event's own key is added on press unless `add_hook`, the
    /// add-to-report hooks' result, is an abort; then the report is sent
    /// unless `pre_report`, the pre-report hooks' result, is an abort.
    pub fn send_keyboard_report_with(
        &mut self,
        event: &KeyEvent,
        add_hook: Result<(), EventHandlerError>,
        pre_report: Result<(), EventHandlerError>,
    )
        requires
            old(self).wf(),
        ensures
            final(self).last_event_id_spec() == old(self).last_event_id_spec(),
            final(self).wf(),
            final(self).live() == old(self).live(),
            final(self).layers() == old(self).layers(),
            old(self).reports().sent.is_prefix_of(final(self).reports().sent),
            final(self).reports() == sent_keyboard_report(
                old(self).reports(),
                old(self).live(),
                old(self).last_addr_toggled_on_spec(),
                *event,
                accepts(add_hook),
                accepts(pre_report),
            ),
            final(self).last_addr_toggled_on_spec() == (if event.state.toggled_on_spec()
                && event.key.is_keyboard_key_spec() {
                event.addr
            } else {
                old(self).last_addr_toggled_on_spec()
            }),
            event.state.toggled_on_spec() && event.key.is_keyboard_key_spec()
                && is_key_pressed_spec(old(self).reports(), event.key) ==> {
                let released = with_code(
                    with_modifiers(old(self).reports(), event.key.flags, false),
                    event.key.key_code,
                    false,
                );
                &&& final(self).reports().sent.len() >= old(self).reports().sent.len() + 1
                &&& old(self).reports().active !is Disabled ==> final(self).reports().sent[old(self).reports().sent.len() as int] == (released.active, active_codes(released))
            },
    {
        let key = event.key();
        let ghost v0 = self.hid@;
        if event.state().key_toggled_on() && key.is_keyboard_key() {
            self.last_addr_toggled_on = event.addr();
            self.guard_rollover(key);
        } else if event.addr() != self.last_addr_toggled_on {
            let last_key = self.live_keys.get(self.last_addr_toggled_on);
            if last_key.is_keyboard_key() {
                proof {
                    lemma_modifiers_keep_sent(self.hid@, last_key.flags, true);
                }
                self.hid.press_modifiers(last_key);
            }
        }
        let ghost v1 = self.hid@;
        if event.state().key_toggled_on() {
            proof {
                lemma_added_keeps_sent(self.hid@, key);
            }
            self.add_to_report_with(key, add_hook);
        }
        let ghost v2 = self.hid@;
        let ghost added = accepts(add_hook);
        assert(v2.sent == v1.sent);
        if let Err(err) = pre_report {
            if err == EventHandlerError::Abort {
                assert(self.reports() == sent_keyboard_report(
                    old(self).reports(),
                    old(self).live(),
                    old(self).last_addr_toggled_on_spec(),
                    *event,
                    added,
                    false,
                ));
                return;
            }
        }
        let _ = self.hid.send_report();
        assert(v2.sent.is_prefix_of(self.hid@.sent));
        assert(self.reports() == sent_keyboard_report(
            old(self).reports(),
            old(self).live(),
            old(self).last_addr_toggled_on_spec(),
            *event,
            added,
            true,
        ));
    }

    /// Before the press of keyboard key `key`: sends a report without its
    /// keycode if the keycode is already in, and a report with its
    /// modifiers if it has any.
    fn guard_rollover(&mut self, key: Key)
        requires
            old(self).wf(),
            key.is_keyboard_key_spec(),
        ensures
            final(self).wf(),
            final(self).live_keys == old(self).live_keys,
            final(self).layer == old(self).layer,
            final(self).last_addr_toggled_on == old(self).last_addr_toggled_on,
            final(self).last_event_id == old(self).last_event_id,
            final(self).hid@.active == old(self).hid@.active,
            final(self).hid@ == rollover_guarded(old(self).hid@, key),
            old(self).hid@.sent.is_prefix_of(final(self).hid@.sent),
            is_key_pressed_spec(old(self).hid@, key) ==> {
                let released = with_code(
                    with_modifiers(old(self).hid@, key.flags, false),
                    key.key_code,
                    false,
                );
                &&& final(self).hid@.sent.len() >= old(self).hid@.sent.len() + 1
                &&& old(self).hid@.active !is Disabled ==> final(self).hid@.sent[old(self).hid@.sent.len() as int] == (released.active, active_codes(released))
            },
    {
        let ghost v0 = self.hid@;
        if self.hid.is_key_pressed(&key) {
            proof {
                lemma_modifiers_keep_sent(self.hid@, key.flags, false);
                lemma_code_keeps_sent(with_modifiers(self.hid@, key.flags, false), key.key_code, false);
            }
            self.hid.release_key(key);
            let _ = self.hid.send_report();
            assert(v0.sent.is_prefix_of(self.hid@.sent));
        }
        let ghost v1 = self.hid@;
        if key.flags() != 0 {
            proof {
                lemma_modifiers_keep_sent(self.hid@, key.flags, true);
            }
            self.hid.press_modifiers(key);
            let _ = self.hid.send_report();
            assert(v1.sent.is_prefix_of(self.hid@.sent));
        }
        assert(v0.sent.is_prefix_of(self.hid@.sent));
    }

    /// Starts a main-loop cycle at time `millis`, then runs the
    /// start-of-cycle hooks.
    pub fn begin_cycle<H: EventHandler>(&mut self, millis: u32) -> (r: Result<(), Error>)
        requires
            old(self).wf(),
        ensures
            final(self).wf(),
            final(self).millis_spec() == millis,
            final(self).live() == old(self).live(),
            final(self).layers() == old(self).layers(),
            final(self).reports() == old(self).reports(),
            ok_or_hook_error(r),
    {
        self.millis_at_cycle_start = millis;
        match H::before_each_cycle() {
            Ok(()) => Ok(()),
            Err(e) => Err(Error::from(e)),
        }
    }

    /// Ends a main-loop cycle: runs the end-of-cycle hooks.
    pub fn end_cycle<H: EventHandler>(&self) -> (r: Result<(), Error>)
        ensures
            ok_or_hook_error(r),
    {
        match H::after_each_cycle() {
            Ok(()) => Ok(()),
            Err(e) => Err(Error::from(e)),
        }
    }

    /// Passes a configuration command to the hooks.
    pub fn on_focus_event<H: EventHandler>(input: &str) -> (r: Result<(), Error>)
        ensures
            ok_or_hook_error(r),
    {
        match H::on_focus_event(input) {
            Ok(()) => Ok(()),
            Err(e) => Err(Error::from(e)),
        }
    }

    /// The time at which the current cycle started.
    pub fn millis_at_cycle_start(&self) -> (r: u32)
        ensures
            r == self.millis_spec(),
    {
        self.millis_at_cycle_start
    }

    /// The address of the last keyboard key pressed.
    pub fn last_addr_toggled_on(&self) -> (r: KeyAddr)
        ensures
            r == self.last_addr_toggled_on_spec(),
    {
        self.last_addr_toggled_on
    }

    /// Whether the device has LEDs.
    pub fn has_leds(&self) -> (r: bool)
        ensures
            r == self.has_leds_spec(),
    {
        self.has_leds
    }

    /// The identity of the last physical event.
    pub fn last_event_id(&self) -> (r: KeyEventId)
        ensures
            r == self.last_event_id_spec(),
    {
        self.last_event_id
    }

    /// The event of a physical transition, with the next identity.
    pub fn next_event(&mut self, addr: KeyAddr, state: crate::keyswitch_state::KeyswitchState) -> (r: KeyEvent)
        requires
            old(self).wf(),
        ensures
            final(self).wf(),
            final(self).last_event_id_spec() == old(self).last_event_id_spec().next_spec(),
            final(self).live() == old(self).live(),
            final(self).layers() == old(self).layers(),
            final(self).reports() == old(self).reports(),
            id_taken(*old(self), *final(self)),
            r.id == old(self).last_event_id_spec().next_spec(),
            r.addr == addr,
            r.state == state,
            r.key == undefined(),
            r.last_id.0 == 0,
    {
        KeyEvent::next(&mut self.last_event_id, addr, state)
    }

    /// The live keys.
    pub fn live_keys(&self) -> (r: &LiveKeys)
        ensures
            *r == self.live(),
    {
        &self.live_keys
    }

    /// The live keys, for plugins that set or mask entries.
    pub fn live_keys_mut(&mut self) -> (r: &mut LiveKeys)
        ensures
            *r == old(self).live(),
            final(self).live() == *final(r),
            final(self).layers() == old(self).layers(),
            final(self).reports() == old(self).reports(),
            final(self).hid_wf() == old(self).hid_wf(),
            final(self).last_addr_toggled_on_spec() == old(self).last_addr_toggled_on_spec(),
    {
        &mut self.live_keys
    }

    /// The layer stack.
    pub fn layer(&self) -> (r: &Layer)
        ensures
            *r == self.layers(),
    {
        &self.layer
    }

    /// The layer stack, for layer changes made outside key events.
    pub fn layer_mut(&mut self) -> (r: &mut Layer)
        ensures
            *r == old(self).layers(),
            final(self).layers() == *final(r),
            final(self).live() == old(self).live(),
            final(self).reports() == old(self).reports(),
            final(self).hid_wf() == old(self).hid_wf(),
            final(self).last_addr_toggled_on_spec() == old(self).last_addr_toggled_on_spec(),
    {
        &mut self.layer
    }

    /// The reports.
    pub fn hid(&self) -> (r: &Keyboardio)
        ensures
            r@ == self.reports(),
            r.wf() == self.hid_wf(),
    {
        &self.hid
    }

    /// The reports, for the transport that sends the queued ones.
    pub fn hid_mut(&mut self) -> (r: &mut Keyboardio)
        ensures
            r@ == old(self).reports(),
            r.wf() == old(self).hid_wf(),
            final(self).reports() == final(r)@,
            final(self).hid_wf() == final(r).wf(),
            final(self).live() == old(self).live(),
            final(self).layers() == old(self).layers(),
            final(self).last_addr_toggled_on_spec() == old(self).last_addr_toggled_on_spec(),
    {
        &mut self.hid
    }
}

} // verus!
